use vstd::prelude::*;

verus! {

/// Whether a path names a file with the model extension `bin`: the last
/// component has a non-empty stem before `.bin`.
pub open spec fn is_model_path(s: Seq<char>) -> bool {
    &&& s.len() > 4
    &&& s.subrange(s.len() - 4, s.len() as int) == seq!['.', 'b', 'i', 'n']
    &&& s[s.len() - 5] != '/'
}

/// `a` comes no later than `b` in code-point order.
pub open spec fn lex_le(a: Seq<char>, b: Seq<char>) -> bool
    decreases a.len(),
{
    if a.len() == 0 {
        true
    } else if b.len() == 0 {
        false
    } else if a[0] != b[0] {
        (a[0] as u32) < (b[0] as u32)
    } else {
        lex_le(a.drop_first(), b.drop_first())
    }
}

pub open spec fn sorted_paths(s: Seq<String>) -> bool {
    forall|i: int, j: int| 0 <= i < j < s.len() ==> lex_le(#[trigger] s[i]@, #[trigger] s[j]@)
}

/// Relies on slice::sort on `String`s: a stable sort into ascending order,
/// where strings compare by their UTF-8 bytes, which orders them as their
/// code points do.
#[verifier::external_body]
fn sort_paths(v: &mut Vec<String>)
    ensures
        final(v)@.to_multiset() == old(v)@.to_multiset(),
        sorted_paths(final(v)@),
{
    v.sort();
}

/// Whether `path` names a model file.
pub fn is_model_path_str(path: &str) -> (r: bool)
    ensures
        r == is_model_path(path@),
{
    let n = path.unicode_len();
    if n <= 4 {
        return false;
    }
    let ok = path.get_char(n - 5) != '/' && path.get_char(n - 4) == '.' && path.get_char(n - 3)
        == 'b' && path.get_char(n - 2) == 'i' && path.get_char(n - 1) == 'n';
    proof {
        let s = path@;
        let tail = s.subrange(s.len() - 4, s.len() as int);
        if ok {
            assert(tail =~= seq!['.', 'b', 'i', 'n']);
        } else if tail == seq!['.', 'b', 'i', 'n'] {
            assert(tail[0] == s[s.len() - 4]);
            assert(tail[1] == s[s.len() - 3]);
            assert(tail[2] == s[s.len() - 2]);
            assert(tail[3] == s[s.len() - 1]);
        }
    }
    ok
}

/// The model files among `paths`, in ascending order.
pub fn select_models(paths: Vec<String>) -> (r: Vec<String>)
    ensures
        r@.to_multiset() == paths@.filter(|p: String| is_model_path(p@)).to_multiset(),
        sorted_paths(r@),
{
    let mut out: Vec<String> = Vec::new();
    let mut i: usize = 0;
    while i < paths.len()
        invariant
            i <= paths@.len(),
            out@ == paths@.subrange(0, i as int).filter(|p: String| is_model_path(p@)),
        decreases paths@.len() - i,
    {
        let p = paths[i].clone();
        proof {
            assert(paths@.subrange(0, i + 1).drop_last() =~= paths@.subrange(0, i as int));
            reveal(Seq::filter);
        }
        if is_model_path_str(paths[i].as_str()) {
            out.push(p);
        }
        i = i + 1;
    }
    assert(paths@.subrange(0, paths@.len() as int) =~= paths@);
    sort_paths(&mut out);
    out
}

} // verus!
