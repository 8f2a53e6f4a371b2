//! Building source text from pieces.
use vstd::prelude::*;
use vstd::string::*;

verus! {

/// The views of a sequence of strings.
pub open spec fn texts(items: Seq<String>) -> Seq<Seq<char>> {
    items.map_values(|s: String| s@)
}

/// The first `n` of `items` in order, with `sep` between neighbours.
pub open spec fn joined_prefix(items: Seq<Seq<char>>, sep: Seq<char>, n: nat) -> Seq<char>
    decreases n,
{
    if n == 0 {
        Seq::empty()
    } else if n == 1 {
        items[0]
    } else {
        joined_prefix(items, sep, (n - 1) as nat) + sep + items[n - 1]
    }
}

/// All of `items` in order, with `sep` between neighbours.
pub open spec fn joined(items: Seq<Seq<char>>, sep: Seq<char>) -> Seq<char> {
    joined_prefix(items, sep, items.len())
}

/// One item stands for itself; any other number of items is written as a tuple.
pub open spec fn tuple_text(items: Seq<Seq<char>>) -> Seq<char> {
    if items.len() == 1 {
        items[0]
    } else {
        "("@ + joined(items, ", "@) + ")"@
    }
}

/// Whether two string slices hold the same characters.
pub fn str_eq(a: &str, b: &str) -> (same: bool)
    ensures
        same == (a@ == b@),
{
    String::from_str(a) == String::from_str(b)
}

/// Writes `items` in order with `sep` between neighbours.
pub fn join(items: &Vec<String>, sep: &str) -> (out: String)
    ensures
        out@ == joined(texts(items@), sep@),
{
    let mut out = String::new();
    let mut i: usize = 0;
    while i < items.len()
        invariant
            i <= items.len(),
            out@ == joined_prefix(texts(items@), sep@, i as nat),
        decreases items.len() - i,
    {
        if i > 0 {
            out.append(sep);
        }
        out.append(items[i].as_str());
        i = i + 1;
    }
    out
}

/// Writes one item as it is, and any other number of items as a tuple.
pub fn tuple(items: &Vec<String>) -> (out: String)
    ensures
        out@ == tuple_text(texts(items@)),
{
    if items.len() == 1 {
        items[0].clone()
    } else {
        let mut out = String::from_str("(");
        let inner = join(items, ", ");
        out.append(inner.as_str());
        out.append(")");
        out
    }
}

} // verus!
