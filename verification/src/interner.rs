//! The string table of `boa_interner`, as far as the parser uses it.
//!
//! Nothing in this file is proved: each function states what the table's own
//! code does, and the rest of the library is verified against these
//! statements.

use boa_interner::Interner;
use boa_interner::Sym;
use vstd::prelude::*;

verus! {

#[verifier::external_type_specification]
#[verifier::external_body]
pub struct ExSym(Sym);

#[verifier::external_type_specification]
#[verifier::external_body]
pub struct ExInterner(Interner);

/// The strings that a table holds, in the order of their symbols: the
/// strings that every table starts with, then the interned ones in the order
/// in which they came. No string stands in it twice.
pub uninterp spec fn interner_strings(interner: Interner) -> Seq<Seq<char>>;

/// The place, in that order and counted from 0, of the string that a symbol
/// stands for: the number that the symbol holds, less one.
pub uninterp spec fn symbol_index(symbol: Sym) -> nat;

/// The symbol of the string at a place. A symbol is nothing but its place,
/// so there is one.
pub open spec fn symbol_at(index: nat) -> Sym {
    choose|symbol: Sym| symbol_index(symbol) == index
}

/// A table after `text` was interned: unchanged where it held the string,
/// one longer where it did not.
pub open spec fn strings_with(strings: Seq<Seq<char>>, text: Seq<char>) -> Seq<Seq<char>> {
    if strings.contains(text) {
        strings
    } else {
        strings.push(text)
    }
}

/// Whether a table can give a symbol for `text`: it holds the string, or it
/// has room for one more.
pub open spec fn can_intern(strings: Seq<Seq<char>>, text: Seq<char>) -> bool {
    strings.contains(text) || strings.len() < usize::MAX
}

/// The symbol that a table gives for `text`, where it can.
pub open spec fn interned_symbol(strings: Seq<Seq<char>>, text: Seq<char>) -> Sym {
    symbol_at(strings_with(strings, text).index_of(text) as nat)
}

/// Whether a symbol stands for a string of the table.
pub open spec fn is_interned(strings: Seq<Seq<char>>, symbol: Sym) -> bool {
    symbol_index(symbol) < strings.len()
}

/// The string a symbol stands for.
pub open spec fn symbol_text(strings: Seq<Seq<char>>, symbol: Sym) -> Seq<char> {
    strings[symbol_index(symbol) as int]
}

/// The symbol of `"true"`.
pub open spec fn sym_true() -> Sym {
    symbol_at(23)
}

/// The symbol of `"false"`.
pub open spec fn sym_false() -> Sym {
    symbol_at(24)
}

/// The symbol of `"null"`.
pub open spec fn sym_null() -> Sym {
    symbol_at(6)
}

/// `Sym::TRUE`, the symbol of `"true"`: the 24th of the strings that every
/// table starts with.
#[verifier::external_body]
pub(crate) fn true_symbol() -> (symbol: Sym)
    ensures
        symbol == sym_true(),
        symbol_index(symbol) == 23,
{
    Sym::TRUE
}

/// `Sym::FALSE`, the symbol of `"false"`: the 25th of the strings that every
/// table starts with.
#[verifier::external_body]
pub(crate) fn false_symbol() -> (symbol: Sym)
    ensures
        symbol == sym_false(),
        symbol_index(symbol) == 24,
{
    Sym::FALSE
}

/// `Sym::NULL`, the symbol of `"null"`: the 7th of the strings that every
/// table starts with.
#[verifier::external_body]
pub(crate) fn null_symbol() -> (symbol: Sym)
    ensures
        symbol == sym_null(),
        symbol_index(symbol) == 6,
{
    Sym::NULL
}

/// `Interner::len`: the number of strings in the table.
#[verifier::external_body]
pub(crate) fn table_len(interner: &Interner) -> (len: usize)
    ensures
        len == interner_strings(*interner).len(),
{
    interner.len()
}

/// `Interner::get`: the symbol of a string that the table holds, `None` for
/// one that it does not hold. The table is left as it is.
#[verifier::external_body]
pub(crate) fn lookup(interner: &Interner, text: &str) -> (found: Option<Sym>)
    ensures
        found is Some <==> interner_strings(*interner).contains(text@),
        found matches Some(symbol) ==> symbol == symbol_at(
            interner_strings(*interner).index_of(text@) as nat,
        ) && symbol_index(symbol) == interner_strings(*interner).index_of(text@),
{
    interner.get(text)
}

/// `Interner::get_or_intern_static`: the symbol of a string, which is put at
/// the end of the table where the table did not hold it. The call panics
/// where the string is new to a table of `usize::MAX` strings; `requires`
/// leaves that out.
#[verifier::external_body]
pub(crate) fn intern_static(interner: &mut Interner, text: &'static str) -> (symbol: Sym)
    requires
        can_intern(interner_strings(*old(interner)), text@),
    ensures
        interner_strings(*final(interner)) == strings_with(interner_strings(*old(interner)), text@),
        symbol == interned_symbol(interner_strings(*old(interner)), text@),
        symbol_index(symbol) == interner_strings(*final(interner)).index_of(text@),
{
    interner.get_or_intern_static(text)
}

/// `Interner::resolve`: the string a symbol stands for, copied; `None` for a
/// symbol that stands for no string of the table.
#[verifier::external_body]
pub(crate) fn resolve(interner: &Interner, symbol: Sym) -> (text: Option<String>)
    ensures
        text is Some <==> is_interned(interner_strings(*interner), symbol),
        text matches Some(string) ==> string@ == symbol_text(interner_strings(*interner), symbol),
{
    interner.resolve(symbol).map(str::to_owned)
}

/// `Interner::resolve_expect`: the string a symbol stands for, copied. The
/// call panics for a symbol that stands for no string of the table;
/// `requires` leaves that out.
#[verifier::external_body]
pub(crate) fn resolved(interner: &Interner, symbol: Sym) -> (text: String)
    requires
        is_interned(interner_strings(*interner), symbol),
    ensures
        text@ == symbol_text(interner_strings(*interner), symbol),
{
    interner.resolve_expect(symbol).to_owned()
}

} // verus!
