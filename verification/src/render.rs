//! Human-readable rendering of a list: the elements from head to tail,
//! joined by `" :: "` and terminated by the empty-list marker `"Nil"`.

use crate::list::List;
use vstd::prelude::*;
use vstd::string::StringExecFns;

verus! {

/// The views of a sequence of strings: each string replaced by its
/// character sequence.
pub open spec fn str_views(s: Seq<String>) -> Seq<Seq<char>> {
    s.map_values(|x: String| x@)
}

/// The rendering of a sequence of already-rendered elements: the parts
/// in order, each followed by `" :: "`, with `"Nil"` at the end.
pub open spec fn render_spec(parts: Seq<Seq<char>>) -> Seq<char>
    decreases parts.len(),
{
    if parts.len() == 0 {
        "Nil"@
    } else {
        parts[0] + " :: "@ + render_spec(parts.drop_first())
    }
}

impl List<String> {
    /// The rendering of a list of strings, head to tail: each element
    /// followed by `" :: "`, then `"Nil"`. The empty list renders as
    /// `"Nil"` alone.
    pub fn render(&self) -> (r: String)
        ensures
            r@ == render_spec(str_views(self@)),
    {
        let mut out = String::new();
        let mut x = self.clone();
        loop
            invariant
                out@ + render_spec(str_views(x@)) == render_spec(str_views(self@)),
            decreases x@.len(),
        {
            if x.is_empty() {
                proof {
                    assert(str_views(x@) =~= Seq::<Seq<char>>::empty());
                    assert(render_spec(str_views(x@)) == "Nil"@);
                }
                out.append("Nil");
                return out;
            }
            let ghost out0: Seq<char> = out@;
            let ghost m: Seq<Seq<char>> = str_views(x@);
            let h = x.head();
            out.append(h.as_str());
            out.append(" :: ");
            let xt = x.tail();
            proof {
                let mt = str_views(xt@);
                assert(mt =~= m.drop_first());
                assert(m[0] == x@[0]@);
                assert(render_spec(m) == m[0] + " :: "@ + render_spec(mt));
                assert(out@ + render_spec(mt) =~= out0 + render_spec(m));
            }
            x = xt;
        }
    }
}

} // verus!
