//! The one piece of the file server that computes rather than serves: the
//! plain-text listing built from a directory's entries.

use vstd::prelude::*;
use vstd::string::StringExecFns;

verus! {

/// The listing: every item in order, each followed by a line break.
pub open spec fn html_list_view(items: Seq<Seq<char>>) -> Seq<char>
    decreases items.len(),
{
    if items.len() == 0 {
        Seq::empty()
    } else {
        html_list_view(items.drop_last()) + items.last() + seq!['\n']
    }
}

/// Joins directory entries into one listing, one line per entry.
pub fn format_html_list(items: Vec<String>) -> (r: String)
    ensures
        r@ == html_list_view(items.deep_view()),
{
    let mut out = String::new();
    let n = items.len();
    for i in 0..n
        invariant
            n == items@.len(),
            out@ == html_list_view(items.deep_view().take(i as int)),
    {
        out.append(items[i].as_str());
        out.append("\n");
        proof {
            reveal_strlit("\n");
            let dv = items.deep_view();
            assert(dv.take(i + 1).drop_last() =~= dv.take(i as int));
            assert(dv.take(i + 1).last() == dv[i as int]);
            assert("\n"@ =~= seq!['\n']);
        }
    }
    proof {
        assert(items.deep_view().take(n as int) =~= items.deep_view());
    }
    out
}

} // verus!
