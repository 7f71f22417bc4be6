use vstd::prelude::*;

use crate::device::Device;
use crate::device::device_fpu;

verus! {

/// The bytes of `frags` laid end to end, in order.
pub open spec fn concat_frags(frags: Seq<Seq<u8>>) -> Seq<u8>
    decreases frags.len(),
{
    if frags.len() == 0 {
        Seq::empty()
    } else {
        frags[0] + concat_frags(frags.drop_first())
    }
}

/// The byte views of a list of fragments.
pub open spec fn views_of(frags: Seq<Vec<u8>>) -> Seq<Seq<u8>> {
    frags.map_values(|f: Vec<u8>| f@)
}

/// Concatenation over a one-longer prefix appends exactly the bytes of
/// the next fragment.
pub proof fn lemma_concat_take_step(frags: Seq<Seq<u8>>, k: int)
    requires
        0 <= k < frags.len(),
    ensures
        concat_frags(frags.take(k + 1)) == concat_frags(frags.take(k)) + frags[k],
    decreases k,
{
    if k == 0 {
        assert(frags.take(0) =~= Seq::<Seq<u8>>::empty());
        assert(concat_frags(frags.take(0)) =~= Seq::<u8>::empty());
        assert(frags.take(1).drop_first() =~= Seq::<Seq<u8>>::empty());
        assert(concat_frags(frags.take(1).drop_first()) =~= Seq::<u8>::empty());
        assert(concat_frags(frags.take(1)) =~= frags[0]);
        assert(concat_frags(frags.take(0)) + frags[0] =~= frags[0]);
    } else {
        let t = frags.drop_first();
        assert(frags.take(k + 1).drop_first() =~= t.take(k));
        assert(frags.take(k).drop_first() =~= t.take(k - 1));
        lemma_concat_take_step(t, k - 1);
        assert(frags[0] + (concat_frags(t.take(k - 1)) + t[k - 1])
            =~= (frags[0] + concat_frags(t.take(k - 1))) + t[k - 1]);
    }
}

/// Appends every fragment of `frags`, in order, to `out`.
fn append_frags(out: &mut Vec<u8>, frags: &Vec<Vec<u8>>)
    ensures
        final(out)@ == old(out)@ + concat_frags(views_of(frags@)),
{
    let ghost vs = views_of(frags@);
    let mut k: usize = 0;
    proof {
        assert(vs.take(0) =~= Seq::<Seq<u8>>::empty());
        assert(out@ =~= out@ + concat_frags(vs.take(0)));
    }
    while k < frags.len()
        invariant
            k <= frags.len(),
            vs == views_of(frags@),
            vs.len() == frags@.len(),
            out@ == old(out)@ + concat_frags(vs.take(k as int)),
        decreases frags.len() - k,
    {
        out.extend_from_slice(frags[k].as_slice());
        proof {
            lemma_concat_take_step(vs, k as int);
            assert(out@ =~= old(out)@ + concat_frags(vs.take(k + 1)));
        }
        k = k + 1;
    }
    proof {
        assert(vs.take(frags@.len() as int) =~= vs);
    }
}

/// Composes the `arm.s` image handed to the assembler: every assembly
/// fragment of the device directory, then every fragment of the
/// architecture-class directory, byte-exact and in directory order. A
/// missing device directory is tolerated as an empty fragment list.
pub fn assemble(device_frags: &Vec<Vec<u8>>, class_frags: &Vec<Vec<u8>>) -> (out: Vec<u8>)
    ensures
        out@ == concat_frags(views_of(device_frags@)) + concat_frags(views_of(class_frags@)),
{
    let mut out: Vec<u8> = Vec::new();
    append_frags(&mut out, device_frags);
    append_frags(&mut out, class_frags);
    proof {
        assert(out@ =~= concat_frags(views_of(device_frags@)) + concat_frags(views_of(class_frags@)));
    }
    out
}

/// Composes the `link.x` linker script: template header, device-specific
/// fragments, common fragments, template footer, concatenated byte-exact
/// in that order.
pub fn link(
    header: &Vec<u8>,
    device_frags: &Vec<Vec<u8>>,
    common_frags: &Vec<Vec<u8>>,
    footer: &Vec<u8>,
) -> (out: Vec<u8>)
    ensures
        out@ == header@ + concat_frags(views_of(device_frags@)) + concat_frags(views_of(common_frags@))
            + footer@,
{
    let mut out: Vec<u8> = Vec::new();
    out.extend_from_slice(header.as_slice());
    append_frags(&mut out, device_frags);
    append_frags(&mut out, common_frags);
    out.extend_from_slice(footer.as_slice());
    proof {
        assert(out@ =~= header@ + concat_frags(views_of(device_frags@))
            + concat_frags(views_of(common_frags@)) + footer@);
    }
    out
}

/// Whether a sequence of characters ends with the given suffix.
pub open spec fn ends_with_chars(s: Seq<char>, suffix: Seq<char>) -> bool {
    s.len() >= suffix.len() && s.skip(s.len() - suffix.len()) == suffix
}

/// Whether a target triple carries the hard-float ABI suffix.
pub fn ends_with_eabihf(target: &str) -> (b: bool)
    ensures
        b == ends_with_chars(target@, "eabihf"@),
{
    proof {
        reveal_strlit("eabihf");
    }
    let n = target.unicode_len();
    let suffix = "eabihf";
    let m = suffix.unicode_len();
    if n < m {
        return false;
    }
    let mut i: usize = 0;
    while i < m
        invariant
            i <= m,
            n == target@.len(),
            m == "eabihf"@.len(),
            m == 6,
            m <= n,
            suffix@ == "eabihf"@,
            forall|j: int| 0 <= j < i ==> target@[n - m + j] == "eabihf"@[j],
        decreases m - i,
    {
        if target.get_char(n - m + i) != suffix.get_char(i) {
            proof {
                assert(target@.skip(target@.len() - "eabihf"@.len())[i as int]
                    == target@[n - m + i]);
            }
            return false;
        }
        i = i + 1;
    }
    proof {
        assert(target@.skip(target@.len() - "eabihf"@.len()) =~= "eabihf"@);
    }
    true
}

/// Whether the build emits the `has_fpu` configuration flag: the selected
/// descriptor enables the FPU, or the target triple ends in the
/// hard-float suffix.
pub fn has_fpu(d: &Device, target: &str) -> (b: bool)
    ensures
        b == (device_fpu(*d) || ends_with_chars(target@, "eabihf"@)),
{
    let fpu = match d {
        Device::KNOWN(desc) => desc.fpu,
    };
    fpu || ends_with_eabihf(target)
}

/// Composing the build outputs is deterministic: identical fragment
/// inputs yield byte-identical `arm.s` and `link.x` images.
pub proof fn lemma_pipeline_deterministic(
    header: Seq<u8>,
    device_frags: Seq<Seq<u8>>,
    common_frags: Seq<Seq<u8>>,
    class_frags: Seq<Seq<u8>>,
    footer: Seq<u8>,
    asm1: Seq<u8>,
    asm2: Seq<u8>,
    script1: Seq<u8>,
    script2: Seq<u8>,
)
    requires
        asm1 == concat_frags(device_frags) + concat_frags(class_frags),
        asm2 == concat_frags(device_frags) + concat_frags(class_frags),
        script1 == header + concat_frags(device_frags) + concat_frags(common_frags) + footer,
        script2 == header + concat_frags(device_frags) + concat_frags(common_frags) + footer,
    ensures
        asm1 == asm2,
        script1 == script2,
{
}

} // verus!
