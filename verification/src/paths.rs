//! The path sandbox: client paths are joined onto the session's working
//! directory, canonicalized outside the library against the real
//! filesystem, and accepted only when the canonical result stays under
//! the server root.
//!
//! A root-relative path is a sequence of byte segments; the canonical
//! form of a filesystem path is likewise handed in as segments from the
//! filesystem root.

use vstd::prelude::*;
use vstd::string::StringSliceAdditionalSpecFns;
use vstd::string::StrSliceExecFns;
use crate::response::push_bytes;

verus! {

/// Why resolution failed: the path does not exist, or it leaves the root.
#[derive(Clone, Copy, Debug, PartialEq, Eq, Structural)]
pub enum ResolveError {
    NotFound,
    PermissionDenied,
}

/// The segments of a path, each as its byte sequence.
pub open spec fn segs_view(p: &Vec<Vec<u8>>) -> Seq<Seq<u8>> {
    Seq::new(p@.len(), |i: int| p@[i]@)
}

/// A well-formed segment: nonempty and free of the separator.
pub open spec fn wf_seg(s: Seq<u8>) -> bool {
    s.len() > 0 && forall|i: int| 0 <= i < s.len() ==> s[i] != '/' as u8
}

/// All segments of a path are well formed.
pub open spec fn wf_segs(p: Seq<Seq<u8>>) -> bool {
    forall|i: int| 0 <= i < p.len() ==> wf_seg(#[trigger] p[i])
}

/// The byte rendering of a root-relative path: its segments joined with
/// the separator.
pub open spec fn join_bytes(p: Seq<Seq<u8>>) -> Seq<u8>
    decreases p.len(),
{
    if p.len() == 0 {
        Seq::empty()
    } else if p.len() == 1 {
        p[0]
    } else {
        join_bytes(p.drop_last()) + seq!['/' as u8] + p.last()
    }
}

/// Join the segments of `segs` with the separator.
pub fn join_segments(segs: &Vec<Vec<u8>>) -> (r: Vec<u8>)
    ensures
        r@ == join_bytes(segs_view(segs)),
{
    let mut out: Vec<u8> = Vec::new();
    let mut i: usize = 0;
    while i < segs.len()
        invariant
            i <= segs@.len(),
            out@ == join_bytes(segs_view(segs).take(i as int)),
        decreases segs@.len() - i,
    {
        if i > 0 {
            out.push('/' as u8);
        }
        push_bytes(&mut out, &segs[i]);
        proof {
            let s = segs_view(segs);
            assert(s.take(i + 1).drop_last() =~= s.take(i as int));
            assert(s.take(i + 1).last() == s[i as int]);
            if i == 0 {
                assert(out@ =~= join_bytes(s.take(1)));
            }
        }
        i = i + 1;
    }
    proof {
        assert(segs_view(segs).take(segs@.len() as int) =~= segs_view(segs));
    }
    out
}

/// The candidate path a client names: an argument that starts with the
/// separator is taken from the root with the marker stripped; any other
/// argument is taken relative to the working directory.
pub open spec fn complete_rel_model(cwd: Seq<Seq<u8>>, arg: Seq<u8>) -> Seq<u8> {
    if arg.len() > 0 && arg[0] == '/' as u8 {
        arg.skip(1)
    } else if arg.len() == 0 {
        join_bytes(cwd)
    } else if cwd.len() == 0 {
        arg
    } else {
        join_bytes(cwd) + seq!['/' as u8] + arg
    }
}

/// Build the root-relative candidate path for the argument `arg` named
/// from the working directory `cwd`.
pub fn complete_rel(cwd: &Vec<Vec<u8>>, arg: &Vec<u8>) -> (r: Vec<u8>)
    ensures
        r@ == complete_rel_model(segs_view(cwd), arg@),
{
    if arg.len() > 0 && arg[0] == '/' as u8 {
        let mut out: Vec<u8> = Vec::new();
        let mut k: usize = 1;
        while k < arg.len()
            invariant
                1 <= k <= arg@.len(),
                out@ == arg@.subrange(1, k as int),
            decreases arg@.len() - k,
        {
            out.push(arg[k]);
            proof {
                assert(out@ =~= arg@.subrange(1, k + 1));
            }
            k = k + 1;
        }
        proof {
            assert(out@ == arg@.skip(1));
        }
        out
    } else {
        let mut out = join_segments(cwd);
        if arg.len() > 0 {
            if cwd.len() > 0 {
                out.push('/' as u8);
            }
            push_bytes(&mut out, arg);
            proof {
                if cwd@.len() == 0 {
                    assert(segs_view(cwd).len() == 0);
                    assert(out@ =~= arg@);
                } else {
                    assert(out@ =~= join_bytes(segs_view(cwd)) + seq!['/' as u8] + arg@);
                }
            }
        }
        out
    }
}

/// `pre` is an initial run of `s`.
pub open spec fn is_prefix_of(pre: Seq<Seq<u8>>, s: Seq<Seq<u8>>) -> bool {
    pre.len() <= s.len() && forall|i: int| 0 <= i < pre.len() ==> s[i] == #[trigger] pre[i]
}

/// The sandbox verdict on a canonical path: the part below the root when
/// the root is a prefix, nothing otherwise.
pub open spec fn sandbox_model(canon: Seq<Seq<u8>>, root: Seq<Seq<u8>>) -> Option<Seq<Seq<u8>>> {
    if is_prefix_of(root, canon) {
        Some(canon.skip(root.len() as int))
    } else {
        None
    }
}

/// Whether `a` and `b` hold the same bytes.
pub fn bytes_eq(a: &Vec<u8>, b: &Vec<u8>) -> (r: bool)
    ensures
        r == (a@ == b@),
{
    if a.len() != b.len() {
        proof {
            assert(a@ != b@);
        }
        return false;
    }
    let mut i: usize = 0;
    while i < a.len()
        invariant
            i <= a@.len(),
            a@.len() == b@.len(),
            forall|j: int| 0 <= j < i ==> a@[j] == b@[j],
        decreases a@.len() - i,
    {
        if a[i] != b[i] {
            proof {
                assert(a@ != b@);
            }
            return false;
        }
        i = i + 1;
    }
    proof {
        assert(a@ =~= b@);
    }
    true
}

/// Copy the bytes of `v`.
pub fn clone_bytes(v: &Vec<u8>) -> (r: Vec<u8>)
    ensures
        r@ == v@,
{
    let mut out: Vec<u8> = Vec::new();
    let mut i: usize = 0;
    while i < v.len()
        invariant
            i <= v@.len(),
            out@ == v@.take(i as int),
        decreases v@.len() - i,
    {
        out.push(v[i]);
        proof {
            assert(out@ =~= v@.take(i + 1));
        }
        i = i + 1;
    }
    proof {
        assert(v@.take(v@.len() as int) =~= v@);
    }
    out
}

/// The in-library half of the resolver. The caller canonicalizes the
/// candidate path against the real filesystem and hands the result in:
/// `None` when canonicalization failed, otherwise the canonical segments.
/// Acceptance returns the path below the root; a canonical path that is
/// not under the root is refused, so no caller can reach a path outside
/// the server root through this function.
#[verifier::loop_isolation(false)]
pub fn complete_path(canon: &Option<Vec<Vec<u8>>>, root: &Vec<Vec<u8>>) -> (r: Result<
    Vec<Vec<u8>>,
    ResolveError,
>)
    ensures
        canon is None ==> r == Err::<Vec<Vec<u8>>, ResolveError>(ResolveError::NotFound),
        canon matches Some(c) ==> match sandbox_model(segs_view(c), segs_view(root)) {
            Some(rel) => r matches Ok(p) && segs_view(&p) == rel,
            None => r == Err::<Vec<Vec<u8>>, ResolveError>(ResolveError::PermissionDenied),
        },
        r matches Ok(p) ==> canon matches Some(c) && segs_view(c) == segs_view(root) + segs_view(
            &p,
        ),
{
    let c = match canon {
        Some(c) => c,
        None => {
            return Err(ResolveError::NotFound);
        },
    };
    if root.len() > c.len() {
        proof {
            assert(!is_prefix_of(segs_view(root), segs_view(c)));
        }
        return Err(ResolveError::PermissionDenied);
    }
    let mut i: usize = 0;
    while i < root.len()
        invariant
            i <= root@.len() <= c@.len(),
            forall|j: int| 0 <= j < i ==> segs_view(c)[j] == segs_view(root)[j],
        decreases root@.len() - i,
    {
        if !bytes_eq(&c[i], &root[i]) {
            proof {
                assert(segs_view(c)[i as int] != segs_view(root)[i as int]);
                assert(!is_prefix_of(segs_view(root), segs_view(c)));
            }
            return Err(ResolveError::PermissionDenied);
        }
        i = i + 1;
    }
    let mut rel: Vec<Vec<u8>> = Vec::new();
    let mut k: usize = root.len();
    while k < c.len()
        invariant
            root@.len() <= k <= c@.len(),
            segs_view(&rel) =~= segs_view(c).subrange(root@.len() as int, k as int),
        decreases c@.len() - k,
    {
        let seg = clone_bytes(&c[k]);
        rel.push(seg);
        proof {
            let s = segs_view(c);
            let r0 = root@.len() as int;
            assert(seg@ == s[k as int]);
            assert forall|j: int| 0 <= j < segs_view(&rel).len() implies segs_view(&rel)[j]
                == s.subrange(r0, k + 1)[j] by {
                if j < segs_view(&rel).len() - 1 {
                    assert(segs_view(&rel)[j] == s.subrange(r0, k as int)[j]);
                }
            }
            assert(segs_view(&rel) =~= s.subrange(r0, k + 1));
        }
        k = k + 1;
    }
    proof {
        assert(is_prefix_of(segs_view(root), segs_view(c)));
        assert(segs_view(&rel) =~= segs_view(c).skip(root@.len() as int));
        assert(segs_view(c) =~= segs_view(root) + segs_view(&rel));
    }
    Ok(rel)
}

/// The length of `s` once trailing separators up to position `i` are
/// removed.
pub open spec fn strip_trail_from(s: Seq<u8>, i: int) -> int
    decreases i,
{
    if i <= 0 {
        0
    } else if s[i - 1] == '/' as u8 {
        strip_trail_from(s, i - 1)
    } else {
        i
    }
}

/// The index of the last separator strictly before position `i`, or -1
/// when there is none.
pub open spec fn last_slash_before(s: Seq<u8>, i: int) -> int
    decreases i,
{
    if i <= 0 {
        -1
    } else if s[i - 1] == '/' as u8 {
        i - 1
    } else {
        last_slash_before(s, i - 1)
    }
}

/// How a creation request names its target: the path of the parent to
/// resolve, and the final name to create inside it. Trailing separators
/// are ignored; a request that starts at the root keeps its root marker
/// on the parent.
pub open spec fn mkd_split_model(arg: Seq<u8>) -> (Seq<u8>, Seq<u8>) {
    let m = strip_trail_from(arg, arg.len() as int);
    let t = arg.take(m);
    let j = last_slash_before(t, m);
    if j == -1 {
        (Seq::empty(), t)
    } else if j == 0 {
        (t.take(1), t.skip(1))
    } else {
        (t.take(j), t.skip(j + 1))
    }
}

/// A name that may be created: nonempty and neither of the two
/// self-referential directory names.
pub open spec fn valid_new_name(n: Seq<u8>) -> bool {
    n.len() > 0 && n != ".".spec_bytes() && n != "..".spec_bytes()
}

/// Split a creation request into the parent path to resolve and the
/// final name.
#[verifier::loop_isolation(false)]
pub fn mkd_split(arg: &Vec<u8>) -> (r: (Vec<u8>, Vec<u8>))
    ensures
        r.0@ == mkd_split_model(arg@).0,
        r.1@ == mkd_split_model(arg@).1,
{
    let mut m: usize = arg.len();
    while m > 0 && arg[m - 1] == '/' as u8
        invariant
            m <= arg@.len(),
            strip_trail_from(arg@, arg@.len() as int) == strip_trail_from(arg@, m as int),
        decreases m,
    {
        m = m - 1;
    }
    proof {
        assert(strip_trail_from(arg@, arg@.len() as int) == m);
    }
    let ghost t = arg@.take(m as int);
    let mut j: usize = m;
    while j > 0 && arg[j - 1] != '/' as u8
        invariant
            j <= m,
            last_slash_before(t, m as int) == last_slash_before(t, j as int),
        decreases j,
    {
        proof {
            assert(t[j - 1] == arg@[j - 1]);
        }
        j = j - 1;
    }
    let mut parent: Vec<u8> = Vec::new();
    let mut name: Vec<u8> = Vec::new();
    let (pe, ns): (usize, usize) = if j == 0 {
        proof {
            assert(last_slash_before(t, m as int) == -1);
        }
        (0, 0)
    } else if j == 1 {
        proof {
            assert(t[0int] == arg@[0int]);
            assert(last_slash_before(t, m as int) == 0);
        }
        (1, 1)
    } else {
        proof {
            assert(t[j - 1] == arg@[j - 1]);
            assert(last_slash_before(t, m as int) == j - 1);
        }
        (j - 1, j)
    };
    let mut i: usize = 0;
    while i < pe
        invariant
            i <= pe <= m <= arg@.len(),
            parent@ == arg@.subrange(0, i as int),
        decreases pe - i,
    {
        parent.push(arg[i]);
        proof {
            assert(parent@ =~= arg@.subrange(0, i + 1));
        }
        i = i + 1;
    }
    let mut k: usize = ns;
    while k < m
        invariant
            ns <= k <= m <= arg@.len(),
            name@ == arg@.subrange(ns as int, k as int),
        decreases m - k,
    {
        name.push(arg[k]);
        proof {
            assert(name@ =~= arg@.subrange(ns as int, k + 1));
        }
        k = k + 1;
    }
    proof {
        assert(parent@ =~= mkd_split_model(arg@).0);
        assert(name@ =~= mkd_split_model(arg@).1);
    }
    (parent, name)
}

/// Whether `n` may be created as a new directory name.
pub fn is_valid_new_name(n: &Vec<u8>) -> (r: bool)
    ensures
        r == valid_new_name(n@),
{
    if n.len() == 0 {
        return false;
    }
    let dot = ".".as_bytes_vec();
    let dotdot = "..".as_bytes_vec();
    !bytes_eq(n, &dot) && !bytes_eq(n, &dotdot)
}

/// Law: the sandbox never lets a path escape. Whatever the canonicalized
/// path was, acceptance means it is exactly the root followed by the
/// returned remainder — never a path outside the root.
pub proof fn lemma_sandbox_no_escape(canon: Seq<Seq<u8>>, root: Seq<Seq<u8>>)
    ensures
        sandbox_model(canon, root) matches Some(rel) ==> canon == root + rel,
{
    if is_prefix_of(root, canon) {
        assert(canon =~= root + canon.skip(root.len() as int));
    }
}

/// Law: resolution is idempotent on canonical in-root paths. A client
/// that re-sends a path it was told, as an absolute argument, names the
/// same candidate again; and when the canonical form of that candidate
/// is the root followed by the same segments, the sandbox returns them
/// unchanged.
pub proof fn lemma_resolve_idempotent(cwd: Seq<Seq<u8>>, root: Seq<Seq<u8>>, rel: Seq<Seq<u8>>)
    ensures
        complete_rel_model(cwd, seq!['/' as u8] + join_bytes(rel)) == join_bytes(rel),
        sandbox_model(root + rel, root) == Some(rel),
{
    assert((seq!['/' as u8] + join_bytes(rel)).skip(1) =~= join_bytes(rel));
    assert(is_prefix_of(root, root + rel));
    assert((root + rel).skip(root.len() as int) =~= rel);
}

} // verus!
