use vstd::prelude::*;
use vstd::string::StringSliceAdditionalSpecFns;

verus! {

/// One byte of Jenkins' one-at-a-time hash.
pub open spec fn joaat_mix(num: u32, byte: u8) -> u32 {
    let a = num.wrapping_add(byte as u32);
    let b = a.wrapping_add(a << 10u32);
    b ^ (b >> 6u32)
}

/// The one-at-a-time state after the bytes of `bytes`, starting from 0.
pub open spec fn joaat_fold(bytes: Seq<u8>) -> u32
    decreases bytes.len(),
{
    if bytes.len() == 0 {
        0
    } else {
        joaat_mix(joaat_fold(bytes.drop_last()), bytes.last())
    }
}

/// The final avalanche of the one-at-a-time hash.
pub open spec fn joaat_finish(num: u32) -> u32 {
    let a = num.wrapping_add(num << 3u32);
    let b = a ^ (a >> 11u32);
    b.wrapping_add(b << 15u32)
}

/// Jenkins' one-at-a-time hash of `bytes`, the host's name hash.
pub open spec fn joaat(bytes: Seq<u8>) -> u32 {
    joaat_finish(joaat_fold(bytes))
}

/// The host's hash of a name (model, weapon or weather names): Jenkins'
/// one-at-a-time hash of its UTF-8 bytes.
pub fn hash(text: &str) -> (r: u32)
    ensures
        r == joaat(text.spec_bytes()),
{
    let bytes = text.as_bytes();
    let mut num: u32 = 0;
    let mut i: usize = 0;
    while i < bytes.len()
        invariant
            i <= bytes@.len(),
            bytes@ == text.spec_bytes(),
            num == joaat_fold(bytes@.subrange(0, i as int)),
        decreases bytes@.len() - i,
    {
        let b = bytes[i];
        let a = num.wrapping_add(b as u32);
        let c = a.wrapping_add(a << 10u32);
        num = c ^ (c >> 6u32);
        proof {
            assert(bytes@.subrange(0, i + 1).drop_last() =~= bytes@.subrange(0, i as int));
        }
        i = i + 1;
    }
    proof {
        assert(bytes@.subrange(0, i as int) =~= bytes@);
    }
    let a = num.wrapping_add(num << 3u32);
    let b = a ^ (a >> 11u32);
    b.wrapping_add(b << 15u32)
}

} // verus!
