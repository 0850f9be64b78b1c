//! Where a Chromium-family browser keeps its default profile.
use vstd::prelude::*;

use crate::text::{chars_of, ends_with, push_str_chars, starts_with, string_from_chars};

verus! {

/// `Path::join` on Unix: an absolute `p` replaces `base`; otherwise `p` is
/// appended, after a `/` unless `base` is empty or already ends with one.
pub open spec fn path_join(base: Seq<char>, p: Seq<char>) -> Seq<char> {
    if starts_with(p, "/"@) {
        p
    } else if base.len() == 0 || ends_with(base, "/"@) {
        base + p
    } else {
        base + "/"@ + p
    }
}

fn join_path(base: &Vec<char>, p: &str) -> (r: Vec<char>)
    ensures
        r@ == path_join(base@, p@),
{
    proof {
        reveal_strlit("/");
    }
    let pv = chars_of(p);
    if pv.len() > 0 && pv[0] == '/' {
        assert(starts_with(p@, "/"@)) by {
            assert(p@.take(1) =~= "/"@);
        }
        return pv;
    }
    assert(!starts_with(p@, "/"@)) by {
        if p@.len() >= 1 {
            assert(p@.take(1)[0] == p@[0]);
        }
    }
    let mut out: Vec<char> = Vec::new();
    let n = base.len();
    for i in 0..n
        invariant
            n == base@.len(),
            out@ == base@.take(i as int),
    {
        out.push(base[i]);
        assert(out@ =~= base@.take(i + 1));
    }
    assert(out@ =~= base@);
    if n > 0 && base[n - 1] != '/' {
        assert(!ends_with(base@, "/"@)) by {
            assert(base@.skip(n - 1)[0] == base@[n - 1]);
        }
        out.push('/');
    } else if n > 0 {
        assert(base@.skip(n - 1) =~= "/"@);
    }
    push_str_chars(&mut out, p);
    out
}

/// The default profile directory of a Chrome-family browser:
/// `{home}/.config/{config_dir}/Default`, joined as paths are.
pub open spec fn chrome_default_profile_spec(home: Seq<char>, config_dir: Seq<char>) -> Seq<char> {
    path_join(path_join(path_join(home, ".config"@), config_dir), "Default"@)
}

pub fn chrome_default_profile(home: &str, config_dir: &str) -> (r: String)
    ensures
        r@ == chrome_default_profile_spec(home@, config_dir@),
{
    let h = chars_of(home);
    let a = join_path(&h, ".config");
    let b = join_path(&a, config_dir);
    let c = join_path(&b, "Default");
    string_from_chars(&c)
}

} // verus!
