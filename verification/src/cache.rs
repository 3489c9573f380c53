//! The artifact cache: one file per processed commit, named by the position
//! of the commit in the walk and by its short identifier.

use crate::path::{join, join_spec};
use crate::text::{decimal, decimal_spec, lemma_decimal_injective};
use vstd::prelude::*;

verus! {

/// The file name of the entry for the commit at `index` with short identifier
/// `short`: `thesis_`, the index in decimal, `-`, the short identifier, `.pdf`.
pub open spec fn entry_name_spec(index: nat, short: Seq<char>) -> Seq<char> {
    "thesis_"@ + decimal_spec(index) + "-"@ + short + ".pdf"@
}

/// The path of that entry in the cache directory `dir`.
pub open spec fn entry_path_spec(dir: Seq<char>, index: nat, short: Seq<char>) -> Seq<char> {
    join_spec(dir, entry_name_spec(index, short))
}

/// Names the cache entry of a commit.
pub fn entry_name(index: usize, short: &str) -> (r: String)
    ensures
        r@ == entry_name_spec(index as nat, short@),
{
    let mut name = String::from_str("thesis_");
    let numeral = decimal(index as u64);
    name.append(numeral.as_str());
    name.append("-");
    name.append(short);
    name.append(".pdf");
    name
}

/// Locates the cache entry of a commit under `dir`.
pub fn entry_path(dir: &str, index: usize, short: &str) -> (r: String)
    ensures
        r@ == entry_path_spec(dir@, index as nat, short@),
{
    let name = entry_name(index, short);
    join(dir, name.as_str())
}

/// The same index and short identifier always lead to the same entry of a
/// cache directory.
pub proof fn lemma_same_key_same_entry(
    dir: Seq<char>,
    index_a: nat,
    short_a: Seq<char>,
    index_b: nat,
    short_b: Seq<char>,
)
    requires
        index_a == index_b,
        short_a == short_b,
    ensures
        entry_name_spec(index_a, short_a) == entry_name_spec(index_b, short_b),
        entry_path_spec(dir, index_a, short_a) == entry_path_spec(dir, index_b, short_b),
{
}

/// Two keys whose short identifiers are equally long share an entry name only
/// if they are the same key.
pub proof fn lemma_entry_name_tells_key(
    index_a: nat,
    short_a: Seq<char>,
    index_b: nat,
    short_b: Seq<char>,
)
    requires
        short_a.len() == short_b.len(),
        entry_name_spec(index_a, short_a) == entry_name_spec(index_b, short_b),
    ensures
        index_a == index_b,
        short_a == short_b,
{
    reveal_strlit("thesis_");
    reveal_strlit("-");
    reveal_strlit(".pdf");
    let name_a = entry_name_spec(index_a, short_a);
    let name_b = entry_name_spec(index_b, short_b);
    let numeral_a = decimal_spec(index_a);
    let numeral_b = decimal_spec(index_b);
    let la = numeral_a.len() as int;
    let lb = numeral_b.len() as int;
    let ls = short_a.len() as int;
    assert(name_a.len() == 12 + la + ls);
    assert(name_b.len() == 12 + lb + ls);
    assert(name_a.subrange(7, 7 + la) =~= numeral_a);
    assert(name_b.subrange(7, 7 + lb) =~= numeral_b);
    assert(name_a.subrange(8 + la, 8 + la + ls) =~= short_a);
    assert(name_b.subrange(8 + lb, 8 + lb + ls) =~= short_b);
    lemma_decimal_injective(index_a, index_b);
}

} // verus!
