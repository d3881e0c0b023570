use vstd::prelude::*;
use vstd::string::*;

verus! {

/// The suffix that names an encrypted artifact.
pub open spec fn encrypted_suffix() -> Seq<char> {
    ".enc"@
}

/// The index of the last '.' in `p`, if it holds one.
pub open spec fn last_dot(p: Seq<char>) -> Option<int>
    decreases p.len(),
{
    if p.len() == 0 {
        None
    } else if p.last() == '.' {
        Some(p.len() - 1)
    } else {
        last_dot(p.drop_last())
    }
}

/// The path of the encrypted artifact made from the file at `p`.
pub open spec fn encrypted_path_of(p: Seq<char>) -> Seq<char> {
    p + encrypted_suffix()
}

/// The path of the decrypted artifact made from the file at `p`: `p` without
/// its last '.' and what follows it, or `p` itself when it holds no '.'.
pub open spec fn decrypted_path_of(p: Seq<char>) -> Seq<char> {
    match last_dot(p) {
        Some(i) => p.subrange(0, i),
        None => p,
    }
}

/// The path that an encrypted artifact of the file at `file_path` is written
/// to: the path with ".enc" appended.
pub fn encrypted_path(file_path: &str) -> (r: String)
    ensures
        r@ == encrypted_path_of(file_path@),
{
    let path = String::from_str(file_path);
    path.concat(".enc")
}

/// The path that the decrypted artifact of the file at `file_path` is written
/// to: the path up to its last '.', or the path unchanged when it holds no
/// '.', in which case the artifact replaces the file it was made from.
pub fn decrypted_path(file_path: &str) -> (r: String)
    ensures
        r@ == decrypted_path_of(file_path@),
{
    let n = file_path.unicode_len();
    let mut i: usize = n;
    assert(file_path@.subrange(0, n as int) =~= file_path@);
    while i > 0
        invariant
            i <= n,
            n == file_path@.len(),
            last_dot(file_path@.subrange(0, i as int)) == last_dot(file_path@),
        decreases i,
    {
        let c = file_path.get_char(i - 1);
        let ghost prefix = file_path@.subrange(0, i as int);
        assert(prefix.drop_last() =~= file_path@.subrange(0, i - 1));
        if c == '.' {
            assert(last_dot(prefix) == Some(i - 1));
            return String::from_str(file_path.substring_char(0, i - 1));
        }
        i = i - 1;
    }
    assert(file_path@.subrange(0, 0).len() == 0);
    String::from_str(file_path)
}

/// The decrypted artifact of an encrypted artifact is written back to the
/// path of the file that was encrypted.
pub proof fn lemma_paths_round_trip(p: Seq<char>)
    ensures
        decrypted_path_of(encrypted_path_of(p)) == p,
{
    reveal_strlit(".enc");
    let e = encrypted_path_of(p);
    let n = p.len() as int;
    let e1 = e.drop_last();
    let e2 = e1.drop_last();
    let e3 = e2.drop_last();
    assert(e.last() == 'c');
    assert(e1.last() == 'n');
    assert(e2.last() == 'e');
    assert(e3.last() == '.');
    assert(e3.len() == n + 1);
    assert(last_dot(e3) == Some(n));
    assert(last_dot(e2) == last_dot(e3));
    assert(last_dot(e1) == last_dot(e2));
    assert(last_dot(e) == last_dot(e1));
    assert(e.subrange(0, n) =~= p);
}

} // verus!
