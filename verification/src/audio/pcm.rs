//! Samples as bytes, and recordings as files.
use vstd::prelude::*;

verus! {

/// The first sample of every frame; the last frame may be cut short.
pub open spec fn first_of_frames<T>(frames: Seq<T>, channels: nat) -> Seq<T>
    decreases frames.len(),
{
    if frames.len() == 0 || channels == 0 {
        Seq::empty()
    } else if frames.len() <= channels {
        seq![frames[0]]
    } else {
        seq![frames[0]] + first_of_frames(frames.skip(channels as int), channels)
    }
}

/// The first channel of interleaved samples. No channel counts as one.
pub fn first_channel<T: Copy>(frames: &[T], channels: usize) -> (r: Vec<T>)
    ensures
        r@ == first_of_frames(
            frames@,
            if channels == 0 {
                1
            } else {
                channels as nat
            },
        ),
{
    let step: usize = if channels == 0 {
        1
    } else {
        channels
    };
    let mut out: Vec<T> = Vec::new();
    let mut i: usize = 0;
    let n: usize = frames.len();
    assert(frames@.skip(0) == frames@);
    while i < n
        invariant
            n == frames@.len(),
            i <= n,
            step > 0,
            out@ + first_of_frames(frames@.skip(i as int), step as nat) == first_of_frames(
                frames@,
                step as nat,
            ),
        decreases n - i,
    {
        let ghost rest = frames@.skip(i as int);
        let ghost done = out@;
        out.push(frames[i]);
        assert(rest[0] == frames@[i as int]);
        if n - i <= step {
            i = n;
            assert(frames@.skip(n as int).len() == 0);
            assert(out@ + first_of_frames(frames@.skip(n as int), step as nat) =~= done
                + first_of_frames(rest, step as nat));
        } else {
            i += step;
            assert(rest.skip(step as int) =~= frames@.skip(i as int));
            assert(out@ + first_of_frames(frames@.skip(i as int), step as nat) =~= done
                + first_of_frames(rest, step as nat));
        }
    }
    assert(frames@.skip(n as int).len() == 0);
    assert(out@ + Seq::<T>::empty() =~= out@);
    out
}

// ---------------------------------------------------------------------------
// Sixteen bits, the low byte first
// ---------------------------------------------------------------------------

/// A sample as an unsigned number.
pub open spec fn unsigned(s: i16) -> int {
    if s < 0 {
        s + 0x1_0000
    } else {
        s as int
    }
}

pub open spec fn sample_bytes(s: i16) -> Seq<u8> {
    seq![(unsigned(s) % 256) as u8, (unsigned(s) / 256) as u8]
}

pub open spec fn bytes_of(v: Seq<i16>) -> Seq<u8>
    decreases v.len(),
{
    if v.len() == 0 {
        Seq::empty()
    } else {
        bytes_of(v.drop_last()) + sample_bytes(v.last())
    }
}

/// The bytes of samples, one behind the other.
pub fn pcm_bytes(samples: &[i16]) -> (r: Vec<u8>)
    ensures
        r@ == bytes_of(samples@),
{
    let mut out: Vec<u8> = Vec::new();
    for i in 0..samples.len()
        invariant
            out@ == bytes_of(samples@.take(i as int)),
    {
        assert(samples@.take(i + 1).drop_last() == samples@.take(i as int));
        let s: i16 = samples[i];
        let u: u32 = if s < 0 {
            (s as i32 + 0x1_0000) as u32
        } else {
            s as u32
        };
        assert(u == unsigned(s));
        let ghost before = out@;
        out.push((u % 256) as u8);
        out.push((u / 256) as u8);
        assert(out@ =~= before + sample_bytes(s));
    }
    assert(samples@.take(samples@.len() as int) == samples@);
    out
}

pub open spec fn sample_from(low: u8, high: u8) -> i16 {
    let u = high as int * 256 + low as int;
    if u >= 0x8000 {
        (u - 0x1_0000) as i16
    } else {
        u as i16
    }
}

/// The samples of bytes, two bytes each; a last byte on its own is passed over.
pub open spec fn samples_in(b: Seq<u8>) -> Seq<i16> {
    Seq::new((b.len() / 2) as nat, |i: int| sample_from(b[2 * i], b[2 * i + 1]))
}

pub fn pcm_samples(pcm: &[u8]) -> (r: Vec<i16>)
    ensures
        r@ == samples_in(pcm@),
{
    let len: usize = pcm.len();
    let n: usize = len / 2;
    let mut out: Vec<i16> = Vec::new();
    for i in 0..n
        invariant
            len == pcm@.len(),
            n == len / 2,
            out@.len() == i,
            forall|j: int| 0 <= j < i ==> out@[j] == #[trigger] samples_in(pcm@)[j],
    {
        let u: i32 = pcm[2 * i + 1] as i32 * 256 + pcm[2 * i] as i32;
        let s: i16 = if u >= 0x8000 {
            (u - 0x1_0000) as i16
        } else {
            u as i16
        };
        assert(s == sample_from(pcm@[2 * i as int], pcm@[2 * i + 1]));
        out.push(s);
        assert(samples_in(pcm@)[i as int] == s);
    }
    assert(out@ =~= samples_in(pcm@));
    out
}

/// Samples that are written as bytes are read back as they were.
pub proof fn law_samples_survive_bytes(v: Seq<i16>)
    ensures
        samples_in(bytes_of(v)) == v,
        bytes_of(v).len() == 2 * v.len(),
    decreases v.len(),
{
    if v.len() > 0 {
        let head = v.drop_last();
        law_samples_survive_bytes(head);
        let a = bytes_of(head);
        let b = bytes_of(v);
        let s = v.last();
        assert(b == a + sample_bytes(s));
        let k = head.len() as int;
        assert(b[2 * k] == sample_bytes(s)[0]);
        assert(b[2 * k + 1] == sample_bytes(s)[1]);
        assert(sample_from(sample_bytes(s)[0], sample_bytes(s)[1]) == s);
        assert forall|i: int| 0 <= i < v.len() implies #[trigger] samples_in(b)[i] == v[i] by {
            if i < k {
                assert(b[2 * i] == a[2 * i] && b[2 * i + 1] == a[2 * i + 1]);
                assert(samples_in(a)[i] == head[i]);
            }
        }
        assert(samples_in(b) =~= v);
    } else {
        assert(samples_in(bytes_of(v)) =~= v);
    }
}

// ---------------------------------------------------------------------------
// Files
// ---------------------------------------------------------------------------

/// A number below two to the thirty-second in four bytes, the low one first.
pub open spec fn four_bytes(n: int) -> Seq<u8> {
    seq![
        (n % 256) as u8,
        (n / 256 % 256) as u8,
        (n / 65536 % 256) as u8,
        (n / 16777216 % 256) as u8,
    ]
}

pub open spec fn two_bytes(n: int) -> Seq<u8> {
    seq![(n % 256) as u8, (n / 256 % 256) as u8]
}

/// A wave file of one channel and sixteen bits: the lengths, the format, and
/// the samples.
pub open spec fn wav_file(rate: int, v: Seq<i16>) -> Seq<u8> {
    let data = bytes_of(v);
    seq![82u8, 73, 70, 70] + four_bytes(36 + data.len() as int) + seq![87u8, 65, 86, 69] + seq![
        102u8,
        109,
        116,
        32,
    ] + four_bytes(16) + two_bytes(1) + two_bytes(1) + four_bytes(rate) + four_bytes(rate * 2)
        + two_bytes(2) + two_bytes(16) + seq![100u8, 97, 116, 97] + four_bytes(data.len() as int)
        + data
}

/// Calls `hound::WavWriter::new` for a file of whole numbers in memory, `write_sample` for each sample, and `finalize`. Writing to memory
/// does not fail. The file is a header of 44 bytes and the samples.
#[verifier::external_body]
fn write_wav(samples: &[i16], rate: u32, channels: u16, bits: u16) -> (r: Result<Vec<u8>, String>)
    requires
        0 < rate <= 0x7fff_ffff,
        channels == 1,
        bits == 16,
        36 + 2 * samples@.len() <= u32::MAX,
    ensures
        r is Ok,
        r->Ok_0@ == wav_file(rate as int, samples@),
{
    let spec = hound::WavSpec {
        channels,
        sample_rate: rate,
        bits_per_sample: bits,
        sample_format: hound::SampleFormat::Int,
    };
    let mut file = std::io::Cursor::new(Vec::new());
    let mut writer = hound::WavWriter::new(&mut file, spec).map_err(|e| e.to_string())?;
    for s in samples {
        writer.write_sample(*s).map_err(|e| e.to_string())?;
    }
    writer.finalize().map_err(|e| e.to_string())?;
    Ok(file.into_inner())
}

/// A recording as a wave file, at sixteen thousand samples a second. `recorded`
/// is how many samples the microphone gave; where it gave none, there is no file.
pub fn encode_wav(recorded: usize, samples: &[i16]) -> (r: Result<Vec<u8>, String>)
    requires
        36 + 2 * samples@.len() <= u32::MAX,
    ensures
        recorded == 0 ==> r is Err && r->Err_0@ == "没有录到音频（麦克风权限未授予？）"@,
        recorded > 0 ==> r is Ok && r->Ok_0@ == wav_file(16_000, samples@),
{
    if recorded == 0 {
        return Err("没有录到音频（麦克风权限未授予？）".to_string());
    }
    write_wav(samples, 16_000, 1, 16)
}

/// A wave file that holds nothing but silence.
pub fn make_silence_wav(seconds: u32) -> (r: Result<Vec<u8>, String>)
    requires
        36 + 32_000 * seconds <= u32::MAX,
    ensures
        r is Ok,
        r->Ok_0@ == wav_file(16_000, Seq::new((16_000 * seconds) as nat, |i: int| 0i16)),
{
    let n: u32 = 16_000 * seconds;
    let mut samples: Vec<i16> = Vec::new();
    for i in 0..n
        invariant
            samples@.len() == i,
            forall|j: int| 0 <= j < i ==> samples@[j] == 0,
    {
        samples.push(0);
    }
    assert(samples@ =~= Seq::new((16_000 * seconds) as nat, |i: int| 0i16));
    write_wav(&samples, 16_000, 1, 16)
}

/// The samples stand at the end of a wave file, behind its header.
pub proof fn law_wav_holds_the_samples(rate: int, v: Seq<i16>)
    ensures
        wav_file(rate, v).len() == 44 + 2 * v.len(),
        samples_in(wav_file(rate, v).skip(44)) == v,
{
    law_samples_survive_bytes(v);
    assert(wav_file(rate, v).skip(44) =~= bytes_of(v));
}

/// Of interleaved samples every frame gives its first one, in order.
pub proof fn law_frames_give_their_first_sample<T>(frames: Seq<T>, channels: nat, i: int)
    requires
        channels > 0,
    ensures
        first_of_frames(frames, channels).len() * channels >= frames.len(),
        frames.len() > 0 ==> (first_of_frames(frames, channels).len() - 1) * channels
            < frames.len(),
        frames.len() == 0 ==> first_of_frames(frames, channels).len() == 0,
        0 <= i < first_of_frames(frames, channels).len() ==> first_of_frames(frames, channels)[i]
            == frames[i * channels],
    decreases frames.len(),
{
    let out = first_of_frames(frames, channels);
    if frames.len() > channels {
        let rest = frames.skip(channels as int);
        let more = first_of_frames(rest, channels);
        law_frames_give_their_first_sample(rest, channels, i - 1);
        assert(out.len() == more.len() + 1);
        assert(out.len() * channels == more.len() * channels + channels) by (nonlinear_arith)
            requires
                out.len() == more.len() + 1,
        ;
        assert((more.len() - 1) * channels == more.len() * channels - channels)
            by (nonlinear_arith);
        assert((out.len() - 1) * channels == more.len() * channels) by (nonlinear_arith)
            requires
                out.len() == more.len() + 1,
        ;
        if 0 < i < out.len() {
            assert(out[i] == more[i - 1]);
            assert(i * channels == (i - 1) * channels + channels) by (nonlinear_arith);
            assert((i - 1) * channels >= 0) by (nonlinear_arith)
                requires
                    i >= 1,
            ;
            assert((i - 1) * channels <= (more.len() - 1) * channels) by (nonlinear_arith)
                requires
                    i - 1 <= more.len() - 1,
            ;
            assert(rest[(i - 1) * channels] == frames[(i - 1) * channels + channels]);
        }
    } else if frames.len() > 0 {
        assert(out =~= seq![frames[0]]);
        assert(1 * channels == channels);
    }
    assert(0 * channels == 0) by (nonlinear_arith);
}

/// One channel is left as it is.
pub proof fn law_one_channel_is_kept<T>(frames: Seq<T>)
    ensures
        first_of_frames(frames, 1) == frames,
    decreases frames.len(),
{
    if frames.len() > 1 {
        law_one_channel_is_kept(frames.skip(1));
    }
    assert(first_of_frames(frames, 1) =~= frames);
}

/// The number that four bytes stand for, the low one first.
pub open spec fn number_in(b: Seq<u8>, at: int) -> int {
    b[at] + 256 * b[at + 1] + 65536 * b[at + 2] + 16777216 * b[at + 3]
}

/// The header of a wave file tells how long file and samples are, and how many
/// samples make up a second.
pub proof fn law_wav_header_tells_the_lengths(rate: int, v: Seq<i16>)
    requires
        0 < rate <= 0x7fff_ffff,
        36 + 2 * v.len() <= u32::MAX,
    ensures
        number_in(wav_file(rate, v), 4) == wav_file(rate, v).len() - 8,
        number_in(wav_file(rate, v), 24) == rate,
        number_in(wav_file(rate, v), 28) == 2 * rate,
        number_in(wav_file(rate, v), 40) == 2 * v.len(),
        wav_file(rate, v)[22] == 1 && wav_file(rate, v)[23] == 0,
        wav_file(rate, v)[34] == 16 && wav_file(rate, v)[35] == 0,
{
    law_samples_survive_bytes(v);
    let data = bytes_of(v);
    let n = data.len() as int;
    let file = wav_file(rate, v);
    let tail = two_bytes(2) + two_bytes(16) + seq![100u8, 97, 116, 97] + four_bytes(n) + data;
    let format = four_bytes(16) + two_bytes(1) + two_bytes(1) + four_bytes(rate) + four_bytes(
        rate * 2,
    );
    let head = seq![82u8, 73, 70, 70] + four_bytes(36 + n) + seq![87u8, 65, 86, 69] + seq![
        102u8,
        109,
        116,
        32,
    ];
    assert(head.len() == 16 && format.len() == 16 && tail.len() == 12 + n);
    assert(file =~= head + format + tail);
    lemma_number_in(36 + n);
    lemma_number_in(rate);
    lemma_number_in(2 * rate);
    lemma_number_in(n);
    assert(forall|i: int| 0 <= i < 16 ==> file[i] == head[i]);
    assert(forall|i: int| 0 <= i < 16 ==> file[16 + i] == format[i]);
    assert(forall|i: int| 0 <= i < 12 ==> file[32 + i] == tail[i]);
    assert(number_in(file, 4) == number_in(head, 4)) by {
        assert(file[4] == head[4] && file[5] == head[5] && file[6] == head[6] && file[7]
            == head[7]);
    }
    assert(number_in(head, 4) == number_in(four_bytes(36 + n), 0));
    assert(file[24] == format[8] && file[25] == format[9] && file[26] == format[10] && file[27]
        == format[11]);
    assert(number_in(format, 8) == number_in(four_bytes(rate), 0));
    assert(file[28] == format[12] && file[29] == format[13] && file[30] == format[14] && file[31]
        == format[15]);
    assert(number_in(format, 12) == number_in(four_bytes(2 * rate), 0));
    assert(file[40] == tail[8] && file[41] == tail[9] && file[42] == tail[10] && file[43]
        == tail[11]);
    assert(number_in(tail, 8) == number_in(four_bytes(n), 0));
    assert(file[22] == format[6] && file[23] == format[7]);
    assert(file[34] == tail[2] && file[35] == tail[3]);
}

proof fn lemma_number_in(n: int)
    requires
        0 <= n <= u32::MAX,
    ensures
        number_in(four_bytes(n), 0) == n,
{
}

} // verus!
