//! Fixed-capacity text buffers.
//!
//! Text crosses the protocol boundary as null-terminated bytes in a
//! caller-supplied buffer of a documented maximum length.  The one rule
//! every writer obeys: never write more than that maximum, terminator
//! included, and always terminate within bounds; text that does not fit is
//! truncated.  This layer does not validate the bytes themselves.

use vstd::prelude::*;

verus! {

/// Maximum length of a preset name buffer, terminator included.
pub const MAX_PRESET_NAME_LEN: usize = 24;

/// Maximum length of a parameter name, label or display buffer,
/// terminator included.
pub const MAX_PARAM_STR_LEN: usize = 8;

/// Maximum length of an effect name buffer, terminator included.
pub const MAX_EFFECT_NAME_LEN: usize = 32;

/// Maximum length of a vendor name buffer, terminator included.
pub const MAX_VENDOR_STR_LEN: usize = 64;

/// Maximum length of a product name buffer, terminator included.
pub const MAX_PRODUCT_STR_LEN: usize = 64;

/// The bytes a bounded text write places in a caller buffer of capacity
/// `max`: the text, truncated to `max - 1` bytes if it is longer, followed
/// by the terminator.
pub open spec fn c_text(src: Seq<u8>, max: int) -> Seq<u8> {
    let body = if src.len() > max - 1 {
        src.take(max - 1)
    } else {
        src
    };
    body.push(0u8)
}

/// A bounded text write never exceeds the buffer capacity, always writes at
/// least the terminator, and the terminator is the last byte written.
pub proof fn lemma_c_text_bounded(src: Seq<u8>, max: int)
    requires
        max >= 1,
    ensures
        1 <= c_text(src, max).len() <= max,
        c_text(src, max).last() == 0u8,
{
}

/// The bounded prefix kept of incoming text: at most `cap` bytes.
pub open spec fn clipped(src: Seq<u8>, cap: int) -> Seq<u8> {
    if src.len() > cap {
        src.take(cap)
    } else {
        src
    }
}

/// Write `src` into the caller buffer `dst` of capacity `max`: the text,
/// truncated to fit, and the terminator.  `dst` stands for host-supplied
/// memory of at least `max` bytes, so the write never exceeds it.
pub fn write_c_string(dst: &mut Vec<u8>, src: &Vec<u8>, max: usize)
    requires
        max >= 1,
    ensures
        final(dst)@ == c_text(src@, max as int),
        final(dst)@.len() <= max,
{
    dst.clear();
    let n: usize = if src.len() > max - 1 {
        max - 1
    } else {
        src.len()
    };
    let mut i: usize = 0;
    while i < n
        invariant
            i <= n,
            n <= src@.len(),
            dst@ == src@.take(i as int),
        decreases n - i,
    {
        dst.push(src[i]);
        proof {
            assert(dst@ =~= src@.take(i + 1));
        }
        i = i + 1;
    }
    dst.push(0u8);
    proof {
        if src@.len() > max - 1 {
            assert(dst@ =~= c_text(src@, max as int));
        } else {
            assert(src@.take(n as int) =~= src@);
            assert(dst@ =~= c_text(src@, max as int));
        }
    }
}

/// Keep at most `cap` bytes of the incoming text `src`.
pub fn clip_bytes(src: &Vec<u8>, cap: usize) -> (r: Vec<u8>)
    ensures
        r@ == clipped(src@, cap as int),
        r@.len() <= cap,
{
    let n: usize = if src.len() > cap {
        cap
    } else {
        src.len()
    };
    let mut out: Vec<u8> = Vec::new();
    let mut i: usize = 0;
    while i < n
        invariant
            i <= n,
            n <= src@.len(),
            out@ == src@.take(i as int),
        decreases n - i,
    {
        out.push(src[i]);
        proof {
            assert(out@ =~= src@.take(i + 1));
        }
        i = i + 1;
    }
    proof {
        if src@.len() <= cap {
            assert(src@.take(n as int) =~= src@);
        }
    }
    out
}

/// Copy `src` into the caller buffer `dst`, replacing its contents.
pub fn copy_bytes(dst: &mut Vec<u8>, src: &Vec<u8>)
    ensures
        final(dst)@ == src@,
{
    dst.clear();
    let mut i: usize = 0;
    while i < src.len()
        invariant
            i <= src@.len(),
            dst@ == src@.take(i as int),
        decreases src@.len() - i,
    {
        dst.push(src[i]);
        proof {
            assert(dst@ =~= src@.take(i + 1));
        }
        i = i + 1;
    }
    proof {
        assert(src@.take(src@.len() as int) =~= src@);
    }
}

/// Whether incoming text spells exactly the word `q`, with or without a
/// trailing terminator.  Content is otherwise not interpreted.
pub open spec fn spells(input: Seq<u8>, q: Seq<u8>) -> bool {
    ||| input == q
    ||| (input.len() == q.len() + 1 && input.take(q.len() as int) == q && input.last() == 0u8)
}

/// Runtime check that incoming text spells exactly the word `q`.
pub fn spells_word(input: &Vec<u8>, q: &Vec<u8>) -> (r: bool)
    ensures
        r == spells(input@, q@),
{
    if input.len() == q.len() {
        let r = bytes_equal_prefix(input, q, q.len());
        proof {
            assert(input@.take(q@.len() as int) =~= input@);
            assert(q@.take(q@.len() as int) =~= q@);
        }
        r
    } else if input.len() >= 1 && input.len() - 1 == q.len() {
        if input[input.len() - 1] != 0 {
            false
        } else {
            let r = bytes_equal_prefix(input, q, q.len());
            proof {
                assert(q@.take(q@.len() as int) =~= q@);
            }
            r
        }
    } else {
        false
    }
}

/// Whether the first `n` bytes of `a` and `b` agree.
fn bytes_equal_prefix(a: &Vec<u8>, b: &Vec<u8>, n: usize) -> (r: bool)
    requires
        n <= a@.len(),
        n <= b@.len(),
    ensures
        r == (a@.take(n as int) == b@.take(n as int)),
{
    let mut i: usize = 0;
    while i < n
        invariant
            i <= n,
            n <= a@.len(),
            n <= b@.len(),
            forall|j: int| 0 <= j < i ==> a@[j] == b@[j],
        decreases n - i,
    {
        if a[i] != b[i] {
            proof {
                assert(a@.take(n as int)[i as int] != b@.take(n as int)[i as int]);
            }
            return false;
        }
        i = i + 1;
    }
    proof {
        assert(a@.take(n as int) =~= b@.take(n as int));
    }
    true
}

} // verus!
