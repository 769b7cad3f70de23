use vstd::prelude::*;

verus! {

/// The eight voice parameters of the speech engine.
#[derive(Debug, Clone, Copy, PartialEq, Eq, Structural)]
pub struct IbmeciVoiceParams {
    pub gender: i32,
    pub head_size: i32,
    pub pitch_baseline: i32,
    pub pitch_fluctuation: i32,
    pub roughness: i32,
    pub breathiness: i32,
    pub speed: i32,
    pub volume: i32,
}

impl Default for IbmeciVoiceParams {
    fn default() -> (r: Self)
        ensures
            r == (IbmeciVoiceParams {
                gender: 0,
                head_size: 0,
                pitch_baseline: 0,
                pitch_fluctuation: 0,
                roughness: 0,
                breathiness: 0,
                speed: 0,
                volume: 0,
            }),
    {
        IbmeciVoiceParams {
            gender: 0,
            head_size: 0,
            pitch_baseline: 0,
            pitch_fluctuation: 0,
            roughness: 0,
            breathiness: 0,
            speed: 0,
            volume: 0,
        }
    }
}

/// Front end of the speech engine: the parameter store it is driven
/// through, and the preparation of text handed to it.  The engine itself
/// runs elsewhere; this state is what the rest of the system reads and
/// writes.
pub struct Ibmeci {
    /// The parameter values last written to the engine, one per register.
    pub gender: i32,
    pub head_size: i32,
    pub pitch_baseline: i32,
    pub pitch_fluctuation: i32,
    pub roughness: i32,
    pub breathiness: i32,
    pub speed: i32,
    pub volume: i32,
    /// The preset voice last copied into the active slot.
    pub active_voice: u32,
}

impl Ibmeci {
    /// A front end with every parameter cleared and the default voice.
    pub fn new() -> (r: Ibmeci)
        ensures
            r.gender == 0,
            r.head_size == 0,
            r.pitch_baseline == 0,
            r.pitch_fluctuation == 0,
            r.roughness == 0,
            r.breathiness == 0,
            r.speed == 0,
            r.volume == 0,
            r.active_voice == 0,
    {
        Ibmeci {
            gender: 0,
            head_size: 0,
            pitch_baseline: 0,
            pitch_fluctuation: 0,
            roughness: 0,
            breathiness: 0,
            speed: 0,
            volume: 0,
            active_voice: 0,
        }
    }

    /// Write all eight voice parameters to the engine's registers.
    pub fn set_voice_params(&mut self, params: &IbmeciVoiceParams)
        ensures
            final(self).gender == params.gender,
            final(self).head_size == params.head_size,
            final(self).pitch_baseline == params.pitch_baseline,
            final(self).pitch_fluctuation == params.pitch_fluctuation,
            final(self).roughness == params.roughness,
            final(self).breathiness == params.breathiness,
            final(self).speed == params.speed,
            final(self).volume == params.volume,
            final(self).active_voice == old(self).active_voice,
    {
        self.breathiness = params.breathiness;
        self.head_size = params.head_size;
        self.gender = params.gender;
        self.roughness = params.roughness;
        self.speed = params.speed;
        self.pitch_baseline = params.pitch_baseline;
        self.pitch_fluctuation = params.pitch_fluctuation;
        self.volume = params.volume;
    }

    /// Read the voice parameters back from the registers.  The fluctuation
    /// field is filled from the baseline register.
    pub fn get_voice_params(&self) -> (r: IbmeciVoiceParams)
        ensures
            r.gender == self.gender,
            r.head_size == self.head_size,
            r.pitch_baseline == self.pitch_baseline,
            r.pitch_fluctuation == self.pitch_baseline,
            r.roughness == self.roughness,
            r.breathiness == self.breathiness,
            r.speed == self.speed,
            r.volume == self.volume,
    {
        IbmeciVoiceParams {
            gender: self.gender,
            head_size: self.head_size,
            pitch_baseline: self.pitch_baseline,
            pitch_fluctuation: self.pitch_baseline,
            roughness: self.roughness,
            breathiness: self.breathiness,
            speed: self.speed,
            volume: self.volume,
        }
    }

    /// The preset voices the engine offers, by identifier and name.
    pub fn get_voices(&self) -> (r: Vec<(u32, String)>)
        ensures
            r@.len() == 8,
            r@[0].0 == 1 && r@[0].1@ == "Adult Male 1"@,
            r@[1].0 == 2 && r@[1].1@ == "Adult Female 1"@,
            r@[2].0 == 3 && r@[2].1@ == "Child 1"@,
            r@[3].0 == 4 && r@[3].1@ == "Adult Male 2"@,
            r@[4].0 == 5 && r@[4].1@ == "Adult Male 3"@,
            r@[5].0 == 6 && r@[5].1@ == "Adult Female 2"@,
            r@[6].0 == 7 && r@[6].1@ == "Elderly Female 1"@,
            r@[7].0 == 8 && r@[7].1@ == "Elderly Male 1"@,
    {
        let mut v: Vec<(u32, String)> = Vec::new();
        v.push((1, String::from_str("Adult Male 1")));
        v.push((2, String::from_str("Adult Female 1")));
        v.push((3, String::from_str("Child 1")));
        v.push((4, String::from_str("Adult Male 2")));
        v.push((5, String::from_str("Adult Male 3")));
        v.push((6, String::from_str("Adult Female 2")));
        v.push((7, String::from_str("Elderly Female 1")));
        v.push((8, String::from_str("Elderly Male 1")));
        v
    }

    /// Copy the preset voice `voice_id` into the active slot.
    pub fn set_voice(&mut self, voice_id: u32)
        ensures
            final(self).active_voice == voice_id,
            final(self).gender == old(self).gender,
            final(self).head_size == old(self).head_size,
            final(self).pitch_baseline == old(self).pitch_baseline,
            final(self).pitch_fluctuation == old(self).pitch_fluctuation,
            final(self).roughness == old(self).roughness,
            final(self).breathiness == old(self).breathiness,
            final(self).speed == old(self).speed,
            final(self).volume == old(self).volume,
    {
        self.active_voice = voice_id;
    }

    /// The bytes handed to the engine for `text`: its GBK encoding, with
    /// numeric character references stripped when any character had no GBK
    /// mapping.
    pub fn prepare_synth_text(&self, text: &str) -> (r: Vec<u8>)
        ensures
            r@ == (if spec_gbk_encode(text@).1 {
                spec_strip_refs(spec_gbk_encode(text@).0)
            } else {
                spec_gbk_encode(text@).0
            }),
    {
        let (bytes, unmapped) = gbk_encode(text);
        if unmapped {
            strip_char_references(bytes.as_slice())
        } else {
            bytes
        }
    }
}

/// The GBK encoding of a text, and whether any of its characters had no GBK
/// mapping.
pub uninterp spec fn spec_gbk_encode(s: Seq<char>) -> (Seq<u8>, bool);

/// Relies on encoding_rs: `GBK.encode` returns the GBK bytes of the text
/// and reports whether any character was unmappable; both depend on the
/// text alone.
#[verifier::external_body]
fn gbk_encode(text: &str) -> (r: (Vec<u8>, bool))
    ensures
        (r.0@, r.1) == spec_gbk_encode(text@),
{
    let (bytes, _, unmapped) = encoding_rs::GBK.encode(text);
    (bytes.into_owned(), unmapped)
}

/// One step of the reference-stripping scan: the state is (inside a
/// reference, the pending reference bytes, the kept bytes), and `last` is
/// the byte before `b`.
pub open spec fn spec_strip_step(b: u8, last: u8, st: (bool, Seq<u8>, Seq<u8>)) -> (
    bool,
    Seq<u8>,
    Seq<u8>,
) {
    if last == 38 {
        if b == 35 {
            (true, seq![38u8, b], st.2)
        } else {
            (false, st.1, st.2 + seq![38u8, b])
        }
    } else if st.0 {
        let pending = st.1.push(b);
        if b == 59 {
            (false, pending, st.2)
        } else if 48 <= b && b <= 57 {
            (true, pending, st.2)
        } else {
            (false, pending, st.2 + pending)
        }
    } else if b != 38 {
        (false, st.1, st.2.push(b))
    } else {
        (false, st.1, st.2)
    }
}

/// The kept bytes after scanning `bytes` from index `i` in state `st`,
/// with `last` the byte before index `i`.
pub open spec fn spec_strip_from(bytes: Seq<u8>, i: int, last: u8, st: (bool, Seq<u8>, Seq<u8>))
    -> Seq<u8>
    decreases bytes.len() - i,
{
    if i < 0 || i >= bytes.len() {
        st.2
    } else {
        spec_strip_from(bytes, i + 1, bytes[i], spec_strip_step(bytes[i], last, st))
    }
}

/// The bytes of `bytes` with numeric character references (`&#` digits,
/// up to `;`) removed; an unterminated reference at the end is dropped.
pub open spec fn spec_strip_refs(bytes: Seq<u8>) -> Seq<u8> {
    spec_strip_from(bytes, 0, 0u8, (false, Seq::empty(), Seq::empty()))
}

/// Append a copy of `u` to `v`.
fn extend_bytes(v: &mut Vec<u8>, u: &Vec<u8>)
    ensures
        final(v)@ == old(v)@ + u@,
{
    let n = u.len();
    let mut i: usize = 0;
    while i < n
        invariant
            n == u@.len(),
            0 <= i <= n,
            v@ == old(v)@ + u@.take(i as int),
        decreases n - i,
    {
        v.push(u[i]);
        proof {
            assert(old(v)@ + u@.take(i + 1) =~= (old(v)@ + u@.take(i as int)).push(
                u@[i as int],
            ));
        }
        i = i + 1;
    }
    proof {
        assert(old(v)@ + u@.take(n as int) =~= old(v)@ + u@);
    }
}

/// Remove numeric character references from a byte stream.
pub fn strip_char_references(bytes: &[u8]) -> (r: Vec<u8>)
    ensures
        r@ == spec_strip_refs(bytes@),
{
    let mut kept: Vec<u8> = Vec::new();
    let mut pending: Vec<u8> = Vec::new();
    let mut has_ref = false;
    let mut last: u8 = 0;
    let n = bytes.len();
    let mut i: usize = 0;
    while i < n
        invariant
            n == bytes@.len(),
            0 <= i <= n,
            spec_strip_refs(bytes@) == spec_strip_from(
                bytes@,
                i as int,
                last,
                (has_ref, pending@, kept@),
            ),
        decreases n - i,
    {
        let b = bytes[i];
        let ghost st = (has_ref, pending@, kept@);
        if last == 38 {
            if b == 35 {
                has_ref = true;
                pending = Vec::new();
                pending.push(38);
                pending.push(b);
            } else {
                has_ref = false;
                kept.push(38);
                kept.push(b);
            }
        } else if has_ref {
            pending.push(b);
            if b == 59 {
                has_ref = false;
            } else if !(48 <= b && b <= 57) {
                extend_bytes(&mut kept, &pending);
                has_ref = false;
            }
        } else if b != 38 {
            kept.push(b);
        }
        proof {
            let next = spec_strip_step(b, last, st);
            assert(has_ref == next.0);
            assert(pending@ =~= next.1);
            assert(kept@ =~= next.2);
        }
        last = b;
        i = i + 1;
    }
    kept
}

} // verus!
