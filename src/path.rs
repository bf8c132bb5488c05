use vstd::prelude::*;
use vstd::string::StrSliceExecFns;

verus! {

/// The path `base` extended by one relative segment, with a single `/`
/// between them; an empty base yields the segment itself.
pub open spec fn path_join(base: Seq<char>, seg: Seq<char>) -> Seq<char> {
    if base.len() == 0 {
        seg
    } else if base.last() == '/' {
        base + seg
    } else {
        base + seq!['/'] + seg
    }
}

/// `base` extended by each segment of `segs` in turn.
pub open spec fn path_join_all(base: Seq<char>, segs: Seq<Seq<char>>) -> Seq<char>
    decreases segs.len(),
{
    if segs.len() == 0 {
        base
    } else {
        path_join(path_join_all(base, segs.drop_last()), segs.last())
    }
}

/// `q` names `p` itself or something inside the directory `p`.
pub open spec fn under(p: Seq<char>, q: Seq<char>) -> bool {
    q == p || (p + seq!['/']).is_prefix_of(q)
}

/// Joins one relative segment onto a path.
pub fn join_path(base: &str, seg: &str) -> (r: String)
    ensures
        r@ == path_join(base@, seg@),
{
    let n = base.unicode_len();
    if n == 0 {
        seg.to_owned()
    } else if base.get_char(n - 1) == '/' {
        base.to_owned().concat(seg)
    } else {
        proof {
            reveal_strlit("/");
        }
        base.to_owned().concat("/").concat(seg)
    }
}

/// Joins every segment of `segs`, in order, onto `base`.
pub fn join_all(base: &str, segs: &Vec<String>) -> (r: String)
    ensures
        r@ == path_join_all(base@, segs@.map_values(|s: String| s@)),
{
    let mut acc = base.to_owned();
    let mut i: usize = 0;
    while i < segs.len()
        invariant
            i <= segs.len(),
            acc@ == path_join_all(base@, segs@.subrange(0, i as int).map_values(|s: String| s@)),
        decreases segs.len() - i,
    {
        let next = join_path(acc.as_str(), segs[i].as_str());
        proof {
            let pre = segs@.subrange(0, i as int).map_values(|s: String| s@);
            let post = segs@.subrange(0, i as int + 1).map_values(|s: String| s@);
            assert(post.drop_last() =~= pre);
        }
        acc = next;
        i = i + 1;
    }
    proof {
        assert(segs@.subrange(0, segs.len() as int) =~= segs@);
    }
    acc
}

/// Whether two strings hold the same characters.
pub fn str_eq(a: &str, b: &str) -> (r: bool)
    ensures
        r == (a@ == b@),
{
    let n = a.unicode_len();
    if n != b.unicode_len() {
        return false;
    }
    let mut i: usize = 0;
    while i < n
        invariant
            n == a@.len(),
            n == b@.len(),
            i <= n,
            forall|j: int| 0 <= j < i ==> a@[j] == b@[j],
        decreases n - i,
    {
        if a.get_char(i) != b.get_char(i) {
            return false;
        }
        i = i + 1;
    }
    proof {
        assert(a@ =~= b@);
    }
    true
}

/// An element-wise copy of a list of strings.
pub fn copy_strings(v: &Vec<String>) -> (r: Vec<String>)
    ensures
        r@ == v@,
{
    let mut r: Vec<String> = Vec::new();
    let mut i: usize = 0;
    while i < v.len()
        invariant
            i <= v.len(),
            r@ == v@.subrange(0, i as int),
        decreases v.len() - i,
    {
        r.push(v[i].clone());
        proof {
            assert(r@ =~= v@.subrange(0, i as int + 1));
        }
        i = i + 1;
    }
    proof {
        assert(r@ =~= v@);
    }
    r
}

} // verus!
