//! The coin-price endpoint's query shapes: the inbound symbol list and the
//! comma-joined form the price provider's API takes.

use vstd::prelude::*;
use vstd::string::StringExecFns;

verus! {

/// The query string of the coin-price endpoint: the symbols to quote.
pub struct CoinPriceQuery {
    pub symbols: String,
}

/// The parts joined with one comma between neighbours.
pub open spec fn comma_joined(parts: Seq<Seq<char>>) -> Seq<char>
    decreases parts.len(),
{
    if parts.len() == 0 {
        Seq::empty()
    } else if parts.len() == 1 {
        parts[0]
    } else {
        parts[0] + ","@ + comma_joined(parts.subrange(1, parts.len() as int))
    }
}

proof fn lemma_comma_joined_push(parts: Seq<Seq<char>>, x: Seq<char>)
    requires
        parts.len() > 0,
    ensures
        comma_joined(parts.push(x)) == comma_joined(parts) + ","@ + x,
    decreases parts.len(),
{
    let whole = parts.push(x);
    assert(whole[0] == parts[0]);
    let tail = parts.subrange(1, parts.len() as int);
    assert(whole.subrange(1, whole.len() as int) =~= tail.push(x));
    if parts.len() == 1 {
        assert(tail.push(x) =~= seq![x]);
        assert(comma_joined(seq![x]) == x);
        assert(comma_joined(whole) == parts[0] + ","@ + x);
    } else {
        lemma_comma_joined_push(tail, x);
        assert(comma_joined(whole) == whole[0] + ","@ + (comma_joined(tail) + ","@ + x));
        assert(parts[0] + ","@ + (comma_joined(tail) + ","@ + x) =~= (parts[0] + ","@
            + comma_joined(tail)) + ","@ + x);
        assert(comma_joined(parts) == parts[0] + ","@ + comma_joined(tail));
    }
}

/// Joins the symbols with commas, the form the price provider's query
/// parameter takes.
pub fn join_symbols(parts: &Vec<String>) -> (r: String)
    ensures
        r@ == comma_joined(parts@.map_values(|s: String| s@)),
{
    let ghost model = parts@.map_values(|s: String| s@);
    let mut out = String::new();
    let n = parts.len();
    let mut i: usize = 0;
    while i < n
        invariant
            n == parts@.len(),
            i <= n,
            model == parts@.map_values(|s: String| s@),
            out@ == comma_joined(model.subrange(0, i as int)),
        decreases n - i,
    {
        let ghost prefix = model.subrange(0, i as int);
        if i > 0 {
            out.append(",");
        }
        out.append(parts[i].as_str());
        proof {
            assert(model.subrange(0, i + 1) =~= prefix.push(model[i as int]));
            if i > 0 {
                lemma_comma_joined_push(prefix, model[i as int]);
            } else {
                assert(prefix.push(model[0]) =~= seq![model[0]]);
                assert(comma_joined(seq![model[0]]) == model[0]);
                assert(out@ =~= model[0]);
            }
        }
        i = i + 1;
    }
    proof {
        assert(model.subrange(0, n as int) =~= model);
    }
    out
}

} // verus!
