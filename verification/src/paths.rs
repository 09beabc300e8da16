//! Byte-level path manipulation, as done on Unix.
use vstd::prelude::*;

verus! {

/// The byte of the Unix path separator, `/`.
pub open spec fn separator() -> u8 {
    47u8
}

/// The path `base` with `name` pushed onto it, the way Unix path pushing
/// works: an absolute `name` replaces `base`; otherwise a separator is put
/// between the two unless `base` is empty or already ends in one.
pub open spec fn spec_join(base: Seq<u8>, name: Seq<u8>) -> Seq<u8> {
    if name.len() > 0 && name[0] == separator() {
        name
    } else if base.len() == 0 || base.last() == separator() {
        base + name
    } else {
        base + seq![separator()] + name
    }
}

/// Appends the bytes of `src` to `dst`.
fn append_bytes(dst: &mut Vec<u8>, src: &Vec<u8>)
    ensures
        final(dst)@ == old(dst)@ + src@,
{
    let n = src.len();
    let mut i: usize = 0;
    while i < n
        invariant
            n == src@.len(),
            i <= n,
            dst@ == old(dst)@ + src@.subrange(0, i as int),
        decreases n - i,
    {
        dst.push(src[i]);
        i = i + 1;
    }
}

/// Pushes `name` onto the path `base` (see `spec_join`).
pub fn join(base: &Vec<u8>, name: &Vec<u8>) -> (joined: Vec<u8>)
    ensures
        joined@ == spec_join(base@, name@),
{
    let mut joined: Vec<u8> = Vec::new();
    if name.len() > 0 && name[0] == 47u8 {
        append_bytes(&mut joined, name);
        return joined;
    }
    append_bytes(&mut joined, base);
    let n = base.len();
    if n > 0 && base[n - 1] != 47u8 {
        joined.push(47u8);
    }
    append_bytes(&mut joined, name);
    joined
}

} // verus!
