//! Provider symbols of the form `ASSET` or `ASSET.SUFFIX`.
use crate::text::{find_char_from, first_index_of, lemma_first_index_of};
use vstd::prelude::*;
use vstd::string::*;

verus! {

/// A symbol split at its first dot.
#[derive(Clone, Debug)]
pub struct StatusAsset {
    pub asset: String,
    pub suffix: Option<String>,
}

/// The text before the first dot, or the whole symbol.
pub open spec fn asset_part(s: Seq<char>) -> Seq<char> {
    s.subrange(0, first_index_of(s, '.'))
}

/// The text between the first dot and the next dot (or the end), when there is a dot.
pub open spec fn suffix_part(s: Seq<char>) -> Option<Seq<char>> {
    let i = first_index_of(s, '.');
    if i < s.len() {
        let rest = s.subrange(i + 1, s.len() as int);
        Some(rest.subrange(0, first_index_of(rest, '.')))
    } else {
        None
    }
}

/// The symbol text of an asset and optional suffix.
pub open spec fn symbol_text(asset: Seq<char>, suffix: Option<Seq<char>>) -> Seq<char> {
    match suffix {
        Some(x) => asset + "."@ + x,
        None => asset,
    }
}

proof fn lemma_first_index_absent(s: Seq<char>, c: char)
    requires
        !s.contains(c),
    ensures
        first_index_of(s, c) == s.len(),
    decreases s.len(),
{
    if s.len() > 0 {
        assert(s[0] != c);
        assert forall|i: int| 0 <= i < s.drop_first().len() implies s.drop_first()[i] != c by {
            assert(s.drop_first()[i] == s[i + 1]);
        }
        lemma_first_index_absent(s.drop_first(), c);
    }
}

proof fn lemma_first_index_concat(a: Seq<char>, b: Seq<char>, c: char)
    requires
        !a.contains(c),
    ensures
        first_index_of(a + b, c) == a.len() + first_index_of(b, c),
    decreases a.len(),
{
    if a.len() == 0 {
        assert(a + b =~= b);
    } else {
        assert(a[0] != c);
        assert((a + b)[0] == a[0]);
        assert((a + b).drop_first() =~= a.drop_first() + b);
        assert forall|i: int| 0 <= i < a.drop_first().len() implies a.drop_first()[i] != c by {
            assert(a.drop_first()[i] == a[i + 1]);
        }
        lemma_first_index_concat(a.drop_first(), b, c);
    }
}

/// Joining an asset and a suffix that hold no dot, then splitting the
/// result, gives back the asset and the suffix.
pub proof fn lemma_symbol_round_trip(asset: Seq<char>, suffix: Option<Seq<char>>)
    requires
        !asset.contains('.'),
        suffix matches Some(x) ==> !x.contains('.'),
    ensures
        asset_part(symbol_text(asset, suffix)) == asset,
        suffix_part(symbol_text(asset, suffix)) == suffix,
{
    reveal_strlit(".");
    match suffix {
        Some(x) => {
            let s = symbol_text(asset, suffix);
            assert(s =~= asset + ("."@ + x));
            lemma_first_index_concat(asset, "."@ + x, '.');
            assert(("."@ + x)[0] == '.');
            assert(first_index_of("."@ + x, '.') == 0);
            assert(s.subrange(0, asset.len() as int) =~= asset);
            assert(s.subrange(asset.len() as int + 1, s.len() as int) =~= x);
            lemma_first_index_absent(x, '.');
            assert(x.subrange(0, x.len() as int) =~= x);
        },
        None => {
            lemma_first_index_absent(asset, '.');
            assert(asset.subrange(0, asset.len() as int) =~= asset);
        },
    }
}

/// Splits a symbol into its asset and, if it has a dot, the suffix after it.
pub fn get_asset(symbol: &str) -> (r: StatusAsset)
    ensures
        r.asset@ == asset_part(symbol@),
        r.suffix matches Some(x) ==> suffix_part(symbol@) == Some(x@),
        r.suffix is None ==> suffix_part(symbol@) is None,
{
    let n = symbol.unicode_len();
    proof {
        assert(symbol@.subrange(0, symbol@.len() as int) =~= symbol@);
        lemma_first_index_of(symbol@, '.');
    }
    let i = find_char_from(symbol, '.', 0);
    let asset = String::from_str(symbol.substring_char(0, i));
    if i < n {
        let ghost rest = symbol@.subrange(i + 1, symbol@.len() as int);
        proof {
            lemma_first_index_of(rest, '.');
        }
        let j = find_char_from(symbol, '.', i + 1);
        let suffix = String::from_str(symbol.substring_char(i + 1, i + 1 + j));
        assert(suffix@ =~= rest.subrange(0, j as int));
        StatusAsset { asset, suffix: Some(suffix) }
    } else {
        StatusAsset { asset, suffix: None }
    }
}

/// Joins an asset and its suffix, if any, with a dot.
pub fn get_symbol(asset: &StatusAsset) -> (r: String)
    ensures
        r@ == symbol_text(
            asset.asset@,
            match asset.suffix {
                Some(x) => Some(x@),
                None => None,
            },
        ),
{
    let mut symbol = String::from_str(asset.asset.as_str());
    match &asset.suffix {
        Some(suffix) => {
            symbol.append(".");
            symbol.append(suffix.as_str());
        },
        None => {},
    }
    symbol
}

} // verus!
