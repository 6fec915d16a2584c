//! Secure path resolution: mapping an untrusted URL path onto a filesystem
//! path confined to a root directory, by string transformation alone.
//!
//! The URL is decomposed into `/`-separated segments; empty segments and
//! current-directory markers (`.`) are dropped, a parent-directory marker
//! (`..`) removes the most recently collected segment and is silently
//! dropped when none is left (the result is clamped at the root, never an
//! error), and the remaining literal segments are joined onto the root with
//! single separators. No filesystem access happens here, so symlinks under
//! the root are not resolved; a deployment that allows untrusted symlink
//! creation under the root can still expose targets outside it.

use vstd::prelude::*;
use vstd::string::*;

use crate::text::str_eq;

verus! {

/// A segment that survives resolution: non-empty and neither the
/// current-directory nor the parent-directory marker.
pub open spec fn seg_is_literal(seg: Seq<char>) -> bool {
    seg.len() > 0 && seg != seq!['.'] && seg != seq!['.', '.']
}

/// The `/`-separated segments of `s[start..]`, scanning from position `i`;
/// `start` is where the segment currently being scanned began.
pub open spec fn split_from(s: Seq<char>, i: int, start: int) -> Seq<Seq<char>>
    decreases s.len() - i,
{
    if i >= s.len() {
        seq![s.subrange(start, s.len() as int)]
    } else if s[i] == '/' {
        seq![s.subrange(start, i)] + split_from(s, i + 1, i + 1)
    } else {
        split_from(s, i + 1, start)
    }
}

/// The `/`-separated segments of `s` (empty segments included).
pub open spec fn split_segments(s: Seq<char>) -> Seq<Seq<char>> {
    split_from(s, 0, 0)
}

/// One step of resolution: skip empty and `.` segments, let `..` remove the
/// most recently collected segment if any (clamping at the root otherwise),
/// and collect every other segment.
pub open spec fn resolve_step(acc: Seq<Seq<char>>, seg: Seq<char>) -> Seq<Seq<char>> {
    if seg.len() == 0 || seg == seq!['.'] {
        acc
    } else if seg == seq!['.', '.'] {
        if acc.len() == 0 {
            acc
        } else {
            acc.drop_last()
        }
    } else {
        acc.push(seg)
    }
}

/// The collected literal segments after resolving `segs` left to right.
pub open spec fn resolve_segments(segs: Seq<Seq<char>>) -> Seq<Seq<char>>
    decreases segs.len(),
{
    if segs.len() == 0 {
        Seq::empty()
    } else {
        resolve_step(resolve_segments(segs.drop_last()), segs.last())
    }
}

/// Append one segment to a path with a single separator: no separator is
/// added when the path already ends with one.
pub open spec fn join_one(p: Seq<char>, seg: Seq<char>) -> Seq<char> {
    if p.len() > 0 && p.last() == '/' {
        p + seg
    } else {
        p + seq!['/'] + seg
    }
}

/// The segments joined onto the root, left to right.
pub open spec fn join_path(root: Seq<char>, segs: Seq<Seq<char>>) -> Seq<char>
    decreases segs.len(),
{
    if segs.len() == 0 {
        root
    } else {
        join_one(join_path(root, segs.drop_last()), segs.last())
    }
}

/// The full resolution of a URL against a root directory.
pub open spec fn resolved_path(root: Seq<char>, url: Seq<char>) -> Seq<char> {
    join_path(root, resolve_segments(split_segments(url)))
}

/// The views of a vector of owned segments.
pub open spec fn seg_views(ss: Seq<String>) -> Seq<Seq<char>> {
    ss.map_values(|s: String| s@)
}

proof fn lemma_take_step<A>(s: Seq<A>, j: int)
    requires
        0 <= j < s.len(),
    ensures
        s.take(j + 1).drop_last() =~= s.take(j),
        s.take(j + 1).last() == s[j],
{
}

/// Every segment of a resolved segment list is a literal segment: never
/// empty, never `.`, and in particular never an unresolved `..`.
pub proof fn lemma_resolve_literal(segs: Seq<Seq<char>>)
    ensures
        forall|i: int|
            0 <= i < resolve_segments(segs).len() ==> seg_is_literal(
                #[trigger] resolve_segments(segs)[i],
            ),
    decreases segs.len(),
{
    if segs.len() > 0 {
        lemma_resolve_literal(segs.drop_last());
        let acc = resolve_segments(segs.drop_last());
        let seg = segs.last();
        if seg.len() == 0 || seg == seq!['.'] {
        } else if seg == seq!['.', '.'] {
        } else {
            assert(seg_is_literal(seg));
            assert(forall|i: int|
                0 <= i < acc.push(seg).len() ==> seg_is_literal(#[trigger] acc.push(seg)[i]));
        }
    }
}

/// Joining segments onto a root keeps the root as a prefix and never
/// shortens the path below the root's own length.
pub proof fn lemma_join_prefix(root: Seq<char>, segs: Seq<Seq<char>>)
    ensures
        join_path(root, segs).len() >= root.len(),
        join_path(root, segs).subrange(0, root.len() as int) =~= root,
    decreases segs.len(),
{
    if segs.len() > 0 {
        lemma_join_prefix(root, segs.drop_last());
        let p = join_path(root, segs.drop_last());
        let j = join_one(p, segs.last());
        assert(j.len() >= p.len());
        assert(j.subrange(0, root.len() as int) =~= root) by {
            assert(forall|i: int| 0 <= i < p.len() ==> j[i] == p[i]);
            assert(p.subrange(0, root.len() as int) =~= root);
        }
    }
}

/// Path containment: for every URL, the resolved path is the root followed
/// by zero or more literal segments. It is never shorter than the root, the
/// root is a prefix of it character for character, and no unresolved `..`
/// (nor any `.` or empty segment) survives into the output.
pub proof fn lemma_path_containment(root: Seq<char>, url: Seq<char>)
    requires
        root.len() > 0,
    ensures
        resolved_path(root, url).len() >= root.len(),
        resolved_path(root, url).subrange(0, root.len() as int) == root,
        forall|i: int|
            0 <= i < resolve_segments(split_segments(url)).len() ==> seg_is_literal(
                #[trigger] resolve_segments(split_segments(url))[i],
            ),
{
    lemma_join_prefix(root, resolve_segments(split_segments(url)));
    lemma_resolve_literal(split_segments(url));
}

fn ends_with_slash(s: &str) -> (r: bool)
    ensures
        r == (s@.len() > 0 && s@.last() == '/'),
{
    let n = s.unicode_len();
    if n == 0 {
        false
    } else {
        s.get_char(n - 1) == '/'
    }
}

/// Combine a root directory and an untrusted URL path into a single path
/// that is the root followed by the URL's resolved literal segments. The
/// result never escapes above the root: `..` segments only remove segments
/// collected from the URL itself and are clamped at the root. The
/// filesystem is never consulted, so symlink targets are not resolved.
#[verifier::loop_isolation(false)]
pub fn assemble_file_path(root_path: &str, url: &str) -> (r: String)
    requires
        root_path@.len() > 0,
    ensures
        r@ == resolved_path(root_path@, url@),
{
    proof {
        reveal_strlit("");
        reveal_strlit(".");
        reveal_strlit("..");
        reveal_strlit("/");
    }
    let ulen = url.unicode_len();

    // Phase one: cut the URL into raw `/`-separated segments.
    let mut raw: Vec<String> = Vec::new();
    let mut start: usize = 0;
    let mut i: usize = 0;
    while i < ulen
        invariant
            ulen == url@.len(),
            start <= i <= ulen,
            split_segments(url@) =~= seg_views(raw@) + split_from(
                url@,
                i as int,
                start as int,
            ),
        decreases ulen - i,
    {
        if url.get_char(i) == '/' {
            let seg = url.substring_char(start, i).to_owned();
            proof {
                assert(seg_views(raw@.push(seg)) =~= seg_views(raw@).push(seg@));
            }
            raw.push(seg);
            start = i + 1;
        }
        i = i + 1;
    }
    let last_seg = url.substring_char(start, ulen).to_owned();
    proof {
        assert(seg_views(raw@.push(last_seg)) =~= seg_views(raw@).push(last_seg@));
        assert(seg_views(raw@) + split_from(url@, ulen as int, start as int) =~= seg_views(
            raw@,
        ).push(url@.subrange(start as int, ulen as int)));
    }
    raw.push(last_seg);
    assert(seg_views(raw@) =~= split_segments(url@));

    // Phase two: resolve the raw segments into the collected literal ones.
    let mut stack: Vec<String> = Vec::new();
    let mut j: usize = 0;
    while j < raw.len()
        invariant
            j <= raw.len(),
            seg_views(raw@) == split_segments(url@),
            seg_views(stack@) =~= resolve_segments(seg_views(raw@).take(j as int)),
        decreases raw.len() - j,
    {
        let ghost pre = seg_views(stack@);
        let seg = &raw[j];
        if str_eq(seg.as_str(), "") || str_eq(seg.as_str(), ".") {
            proof {
                assert(seg@ == ""@ ==> seg@.len() == 0);
                assert(seg@ == "."@ ==> seg@ == seq!['.']);
            }
        } else if str_eq(seg.as_str(), "..") {
            proof {
                assert(seg@ =~= seq!['.', '.']);
            }
            if stack.len() > 0 {
                let popped = stack.pop();
                proof {
                    assert(seg_views(stack@) =~= pre.drop_last());
                }
            }
        } else {
            proof {
                assert(seg@.len() > 0 && seg@ != seq!['.'] && seg@ != seq!['.', '.']) by {
                    assert(seg@.len() == 0 ==> seg@ =~= ""@);
                    assert("."@ =~= seq!['.']);
                    assert(".."@ =~= seq!['.', '.']);
                }
            }
            let owned = raw[j].clone();
            proof {
                assert(seg_views(stack@.push(owned)) =~= seg_views(stack@).push(owned@));
            }
            stack.push(owned);
        }
        proof {
            lemma_take_step(seg_views(raw@), j as int);
            assert(resolve_segments(seg_views(raw@).take(j as int + 1)) == resolve_step(
                resolve_segments(seg_views(raw@).take(j as int)),
                seg_views(raw@)[j as int],
            ));
        }
        j = j + 1;
    }
    assert(seg_views(raw@).take(raw@.len() as int) =~= seg_views(raw@));
    assert(seg_views(stack@) =~= resolve_segments(split_segments(url@)));

    // Phase three: join the collected segments onto the root.
    let mut complete: String = root_path.to_owned();
    let mut k: usize = 0;
    while k < stack.len()
        invariant
            k <= stack.len(),
            seg_views(stack@) == resolve_segments(split_segments(url@)),
            complete@ =~= join_path(root_path@, seg_views(stack@).take(k as int)),
        decreases stack.len() - k,
    {
        let ghost p = complete@;
        if !ends_with_slash(complete.as_str()) {
            complete.append("/");
        }
        complete.append(stack[k].as_str());
        proof {
            assert(complete@ =~= join_one(p, seg_views(stack@)[k as int]));
            lemma_take_step(seg_views(stack@), k as int);
            assert(join_path(root_path@, seg_views(stack@).take(k as int + 1)) == join_one(
                join_path(root_path@, seg_views(stack@).take(k as int)),
                seg_views(stack@)[k as int],
            ));
        }
        k = k + 1;
    }
    assert(seg_views(stack@).take(stack@.len() as int) =~= seg_views(stack@));
    complete
}

} // verus!
