//! Entries of the environment file through which the tools hand values to
//! one another.
//!
//! An entry is appended to the file as a line of its own: a line break, the
//! name, an equals sign, and the value between double quotes.  The value is
//! written as it is.

use vstd::prelude::*;
use vstd::string::StringExecFns;

verus! {

/// The name under which the mnemonic is kept.
pub const MNEMONIC_NAME: &'static str = "MNEMONIC";

/// The name under which the path of the chosen transaction is kept.
pub const SIGNED_TX_NAME: &'static str = "SIGNED_TX";

/// The text of the entry that gives `name` the value `value`.
pub open spec fn entry_of(name: Seq<char>, value: Seq<char>) -> Seq<char> {
    seq!['\n'] + name + seq!['=', '"'] + value + seq!['"']
}

/// An entry is as long as its name and its value and four more characters.
pub proof fn lemma_entry_length(name: Seq<char>, value: Seq<char>)
    ensures
        entry_of(name, value).len() == name.len() + value.len() + 4,
{
}

/// An entry begins with a line break, so that it never joins the line
/// before it; the name follows at once, and the value ends one character
/// before the entry does.
pub proof fn lemma_entry_layout(name: Seq<char>, value: Seq<char>)
    ensures
        entry_of(name, value)[0] == '\n',
        entry_of(name, value).subrange(1, name.len() as int + 1) == name,
        entry_of(name, value)[name.len() as int + 1] == '=',
        entry_of(name, value)[name.len() as int + 2] == '"',
        entry_of(name, value).subrange(
            name.len() as int + 3,
            name.len() as int + 3 + value.len() as int,
        ) == value,
        entry_of(name, value).last() == '"',
{
    let entry = entry_of(name, value);
    let n = name.len() as int;
    let v = value.len() as int;
    assert(entry.subrange(1, n + 1) =~= name);
    assert(entry.subrange(n + 3, n + 3 + v) =~= value);
}

/// The text of the entry that gives `name` the value `value`.
pub fn env_entry(name: &str, value: &str) -> (entry: String)
    ensures
        entry@ == entry_of(name@, value@),
{
    proof {
        reveal_strlit("\n");
        reveal_strlit("=\"");
        reveal_strlit("\"");
    }
    let mut entry = String::from_str("\n");
    entry.append(name);
    entry.append("=\"");
    entry.append(value);
    entry.append("\"");
    assert(entry@ =~= entry_of(name@, value@));
    entry
}

/// The entry that keeps the mnemonic.
pub fn mnemonic_entry(mnemonic: &str) -> (entry: String)
    ensures
        entry@ == entry_of(MNEMONIC_NAME@, mnemonic@),
{
    env_entry(MNEMONIC_NAME, mnemonic)
}

/// The entry that keeps the path of the chosen transaction.
pub fn signed_tx_entry(path: &str) -> (entry: String)
    ensures
        entry@ == entry_of(SIGNED_TX_NAME@, path@),
{
    env_entry(SIGNED_TX_NAME, path)
}

} // verus!
