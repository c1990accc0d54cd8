use vstd::prelude::*;
use vstd::string::StrSliceExecFns;
use vstd::string::StringExecFns;

verus! {

/// The final path segment of `s`: the characters after the last `/`,
/// or all of `s` when it holds no `/`.
pub open spec fn final_segment(s: Seq<char>) -> Seq<char>
    decreases s.len(),
{
    if s.len() == 0 {
        s
    } else if s[s.len() - 1] == '/' {
        Seq::empty()
    } else {
        final_segment(s.drop_last()).push(s[s.len() - 1])
    }
}

proof fn lemma_final_segment_after_slash(s: Seq<char>, i: int)
    requires
        0 <= i <= s.len(),
        forall|k: int| i <= k < s.len() ==> s[k] != '/',
        i > 0 ==> s[i - 1] == '/',
    ensures
        final_segment(s) == s.subrange(i, s.len() as int),
    decreases s.len(),
{
    if i == s.len() {
        if s.len() == 0 {
            assert(final_segment(s) == s);
            assert(s.subrange(0, 0) =~= s);
        } else {
            assert(s[s.len() - 1] == '/');
            assert(final_segment(s) =~= s.subrange(i, s.len() as int));
        }
    } else {
        assert(s[s.len() - 1] != '/');
        let t = s.drop_last();
        lemma_final_segment_after_slash(t, i);
        assert(final_segment(s) == final_segment(t).push(s[s.len() - 1]));
        assert(t.subrange(i, t.len() as int).push(s[s.len() - 1]) =~= s.subrange(
            i,
            s.len() as int,
        ));
    }
}

/// The final path segment of `path`, as `PathBuf::file_name` would see it
/// for the directory paths the discovery pass walks.
pub fn file_name(path: &String) -> (r: String)
    ensures
        r@ == final_segment(path@),
{
    let s: &str = path.as_str();
    let len: usize = s.unicode_len();
    let mut i: usize = len;
    let mut done: bool = false;
    while !done && i > 0
        invariant
            i <= len,
            len == s@.len(),
            forall|k: int| i <= k < len ==> s@[k] != '/',
            done ==> i >= 1 && s@[i - 1] == '/',
        decreases i + (if done { 0int } else { 1int }),
    {
        if s.get_char(i - 1) == '/' {
            done = true;
        } else {
            i = i - 1;
        }
    }
    let sub: &str = s.substring_char(i, len);
    proof {
        lemma_final_segment_after_slash(s@, i as int);
    }
    String::from_str(sub)
}

} // verus!
