//! Microphone side: which input device and stream configuration to use, and
//! how captured mono samples become fixed-size 48 kHz frames for the
//! encoder.
use vstd::prelude::*;

use crate::text::{
    contains_str, contains_text, decimal_text, law_decimal_text_parses_back, lowercase, parse_usize,
    push_decimal, to_lowercase_string, usize_from_text,
};

verus! {

/// The sample rate frames are produced at (Opus at 48 kHz).
pub const TARGET_SAMPLE_RATE: u32 = 48_000;

/// Samples per frame: 20 ms at 48 kHz, mono.
pub const FRAME_SIZE_SAMPLES: usize = 960;

/// The largest encoded packet the encoder may produce, in bytes.
pub const OPUS_MAX_PACKET_SIZE: usize = 1500;

/// One input device as `devices` lists it.
#[derive(Debug, Clone)]
pub struct InputDeviceInfo {
    pub index: usize,
    pub name: String,
    pub default: bool,
}

/// The line `devices` prints for `d`: `"  [{index}] {name}"`, followed by
/// `" (default)"` for the default device.
pub open spec fn listing_text(d: InputDeviceInfo) -> Seq<char> {
    "  ["@ + decimal_text(d.index as nat) + "] "@ + d.name@ + if d.default {
        " (default)"@
    } else {
        Seq::empty()
    }
}

impl InputDeviceInfo {
    /// The line `devices` prints for this device.
    pub fn listing_line(&self) -> (s: String)
        ensures
            s@ == listing_text(*self),
    {
        let mut s = String::from_str("  [");
        push_decimal(&mut s, self.index as u64);
        s.append("] ");
        s.append(self.name.as_str());
        if self.default {
            s.append(" (default)");
        }
        proof {
            if !self.default {
                assert(s@ =~= listing_text(*self));
            }
        }
        s
    }
}

/// A device's index as `devices` prints it, given back as `--input`, picks
/// that same device: the printed index text is the decimal spelling of the
/// index, and it parses back to the index — so by `list_input_devices`
/// (device `i` is listed with index `i`) and `select_input_device` (a
/// selector that parses to an index below the device count picks it), the
/// round trip selects the device at that position.
pub proof fn law_listed_index_selects_same_device(d: InputDeviceInfo)
    ensures
        listing_text(d).subrange(3, 3 + decimal_text(d.index as nat).len() as int) == decimal_text(d.index as nat),
        usize_from_text(decimal_text(d.index as nat)) == Some(d.index as nat),
{
    law_decimal_text_parses_back(d.index as nat);
    let t = decimal_text(d.index as nat);
    reveal_strlit("  [");
    assert("  ["@.len() == 3);
    assert(listing_text(d).subrange(3, 3 + t.len() as int) =~= t);
}

/// The name shown for a device whose name could be read (or could not).
pub open spec fn shown_name(name: Option<String>) -> Seq<char> {
    match name {
        Some(n) => n@,
        None => "<unknown>"@,
    }
}

/// The default device's name, or the empty name when there is none.
pub open spec fn default_name_text(name: Option<String>) -> Seq<char> {
    match name {
        Some(n) => n@,
        None => Seq::empty(),
    }
}

/// Lists input devices in enumeration order. `names[i]` is the name of the
/// `i`-th device (none when it could not be read) and `default_name` that
/// of the default device; a device is marked default when its shown name
/// equals the default device's name.
pub fn list_input_devices(names: Vec<Option<String>>, default_name: Option<String>) -> (out: Vec<InputDeviceInfo>)
    ensures
        out@.len() == names@.len(),
        forall|i: int|
            0 <= i < out@.len() ==> {
                &&& (#[trigger] out@[i]).index == i
                &&& out@[i].name@ == shown_name(names@[i])
                &&& out@[i].default == (shown_name(names@[i]) == default_name_text(default_name))
            },
{
    let default_text = match default_name {
        Some(n) => n,
        None => String::new(),
    };
    let mut out: Vec<InputDeviceInfo> = Vec::new();
    let mut i: usize = 0;
    let n: usize = names.len();
    while i < n
        invariant
            i <= n,
            n == names@.len(),
            default_text@ == default_name_text(default_name),
            out@.len() == i,
            forall|k: int|
                0 <= k < i ==> {
                    &&& (#[trigger] out@[k]).index == k
                    &&& out@[k].name@ == shown_name(names@[k])
                    &&& out@[k].default == (shown_name(names@[k]) == default_name_text(default_name))
                },
        decreases n - i,
    {
        let name = match &names[i] {
            Some(s) => s.clone(),
            None => String::from_str("<unknown>"),
        };
        let is_default = crate::text::str_equal(name.as_str(), default_text.as_str());
        out.push(InputDeviceInfo { index: i, name, default: is_default });
        i = i + 1;
    }
    out
}

/// Why no input device could be chosen.
pub enum InputDeviceError {
    /// The host has no default input device.
    NoDefault,
    /// The input devices could not be enumerated.
    EnumerationFailed,
    /// The selector is an index past the last device.
    IndexOutOfRange(usize),
    /// No device name contains the selector.
    NoMatch(String),
}

pub open spec fn input_device_error_text(e: InputDeviceError) -> Seq<char> {
    match e {
        InputDeviceError::NoDefault => "No default input device available"@,
        InputDeviceError::EnumerationFailed => "Could not enumerate input devices"@,
        InputDeviceError::IndexOutOfRange(i) => "Input device index "@ + decimal_text(i as nat) + " is out of range"@,
        InputDeviceError::NoMatch(s) => "No input device found matching selector '"@ + s@ + "'"@,
    }
}

impl InputDeviceError {
    /// The error's text.
    pub fn message(&self) -> (s: String)
        ensures
            s@ == input_device_error_text(*self),
    {
        match self {
            InputDeviceError::NoDefault => String::from_str("No default input device available"),
            InputDeviceError::EnumerationFailed => String::from_str("Could not enumerate input devices"),
            InputDeviceError::IndexOutOfRange(i) => {
                let mut s = String::from_str("Input device index ");
                push_decimal(&mut s, *i as u64);
                s.append(" is out of range");
                s
            },
            InputDeviceError::NoMatch(sel) => {
                let mut s = String::from_str("No input device found matching selector '");
                s.append(sel.as_str());
                s.append("'");
                s
            },
        }
    }
}

/// Device `j`'s name, lower-cased, contains the lower-cased selector.
pub open spec fn name_matches(names: Seq<String>, j: int, selector: Seq<char>) -> bool {
    contains_text(lowercase(names[j]@), lowercase(selector))
}

/// Picks the device a `--input` selector names among devices with the given
/// names (an unreadable name counts as empty). A selector that parses as an
/// index picks that device; otherwise the first device whose lower-cased
/// name contains the lower-cased selector.
pub fn select_input_device(selector: &str, names: &Vec<String>) -> (r: Result<usize, InputDeviceError>)
    ensures
        match usize_from_text(selector@) {
            Some(idx) => if idx < names@.len() {
                r == Ok::<usize, InputDeviceError>(idx as usize)
            } else {
                r matches Err(InputDeviceError::IndexOutOfRange(i)) && i == idx
            },
            None => match r {
                Ok(j) => j < names@.len() && name_matches(names@, j as int, selector@) && forall|k: int|
                    0 <= k < j ==> !#[trigger] name_matches(names@, k, selector@),
                Err(InputDeviceError::NoMatch(s)) => s@ == selector@ && forall|k: int|
                    0 <= k < names@.len() ==> !#[trigger] name_matches(names@, k, selector@),
                Err(_) => false,
            },
        },
{
    if let Some(idx) = parse_usize(selector) {
        if idx < names.len() {
            return Ok(idx);
        }
        return Err(InputDeviceError::IndexOutOfRange(idx));
    }
    let needle = to_lowercase_string(selector);
    let mut lowered: Vec<String> = Vec::new();
    let mut j: usize = 0;
    while j < names.len()
        invariant
            j <= names@.len(),
            lowered@.len() == j,
            forall|k: int| 0 <= k < j ==> (#[trigger] lowered@[k])@ == lowercase(names@[k]@),
        decreases names@.len() - j,
    {
        lowered.push(to_lowercase_string(names[j].as_str()));
        j = j + 1;
    }
    let found = first_name_containing(&lowered, needle.as_str());
    proof {
        assert forall|k: int| 0 <= k < names@.len() implies #[trigger] name_matches(names@, k, selector@)
            == contains_text(lowered@[k]@, needle@) by {
            assert(lowered@[k]@ == lowercase(names@[k]@));
        }
    }
    match found {
        Some(k) => Ok(k),
        None => Err(InputDeviceError::NoMatch(String::from_str(selector))),
    }
}

/// The index of the first name that contains `needle`, if any.
pub fn first_name_containing(names: &Vec<String>, needle: &str) -> (r: Option<usize>)
    ensures
        match r {
            Some(j) => j < names@.len() && contains_text(names@[j as int]@, needle@) && forall|k: int|
                0 <= k < j ==> !contains_text(#[trigger] names@[k]@, needle@),
            None => forall|k: int| 0 <= k < names@.len() ==> !contains_text(#[trigger] names@[k]@, needle@),
        },
{
    let mut j: usize = 0;
    while j < names.len()
        invariant
            j <= names@.len(),
            forall|k: int| 0 <= k < j ==> !contains_text(#[trigger] names@[k]@, needle@),
        decreases names@.len() - j,
    {
        if contains_str(names[j].as_str(), needle) {
            return Some(j);
        }
        j = j + 1;
    }
    None
}

/// One supported input configuration range of a device.
pub struct ConfigRange {
    pub min_sample_rate: u32,
    pub max_sample_rate: u32,
    pub channels: u16,
}

/// The range can run at the target rate.
pub open spec fn covers_target(c: ConfigRange) -> bool {
    c.min_sample_rate <= TARGET_SAMPLE_RATE && c.max_sample_rate >= TARGET_SAMPLE_RATE
}

/// Which stream configuration to capture with.
pub enum StreamConfigChoice {
    /// The range at this index, run at the target rate.
    Supported(usize),
    /// The device's default input configuration.
    DeviceDefault,
}

/// Picks the capture configuration among a device's supported ranges: the
/// first mono range that covers 48 kHz, else the first range that covers it,
/// else the device default.
pub fn choose_stream_config(ranges: &Vec<ConfigRange>) -> (r: StreamConfigChoice)
    ensures
        match r {
            StreamConfigChoice::Supported(i) => {
                &&& i < ranges@.len()
                &&& covers_target(ranges@[i as int])
                &&& if ranges@[i as int].channels == 1 {
                    forall|k: int| 0 <= k < i ==> !(covers_target(#[trigger] ranges@[k]) && ranges@[k].channels == 1)
                } else {
                    &&& forall|k: int| 0 <= k < ranges@.len() ==> !(covers_target(#[trigger] ranges@[k]) && ranges@[k].channels == 1)
                    &&& forall|k: int| 0 <= k < i ==> !covers_target(#[trigger] ranges@[k])
                }
            },
            StreamConfigChoice::DeviceDefault => forall|k: int| 0 <= k < ranges@.len() ==> !covers_target(#[trigger] ranges@[k]),
        },
{
    let mut preferred: Option<usize> = None;
    let mut i: usize = 0;
    while i < ranges.len()
        invariant
            i <= ranges@.len(),
            forall|k: int| 0 <= k < i ==> !(covers_target(#[trigger] ranges@[k]) && ranges@[k].channels == 1),
            match preferred {
                Some(p) => p < i && covers_target(ranges@[p as int]) && forall|k: int| 0 <= k < p ==> !covers_target(#[trigger] ranges@[k]),
                None => forall|k: int| 0 <= k < i ==> !covers_target(#[trigger] ranges@[k]),
            },
        decreases ranges@.len() - i,
    {
        let c = &ranges[i];
        if c.min_sample_rate <= TARGET_SAMPLE_RATE && c.max_sample_rate >= TARGET_SAMPLE_RATE {
            if c.channels == 1 {
                return StreamConfigChoice::Supported(i);
            }
            if preferred.is_none() {
                preferred = Some(i);
            }
        }
        i = i + 1;
    }
    match preferred {
        Some(p) => {
            assert(ranges@[p as int].channels != 1);
            StreamConfigChoice::Supported(p)
        },
        None => StreamConfigChoice::DeviceDefault,
    }
}

/// Why no capture configuration could be chosen.
pub enum StreamConfigError {
    /// The device has no range covering 48 kHz and no default configuration.
    NoSupportedConfig,
}

impl StreamConfigError {
    /// The error's text.
    pub fn message(&self) -> (s: String)
        ensures
            s@ == "No supported input config found"@,
    {
        String::from_str("No supported input config found")
    }
}

/// The samples of a run of frames, one after the other.
pub open spec fn flatten(frames: Seq<Vec<i16>>) -> Seq<i16>
    decreases frames.len(),
{
    if frames.len() == 0 {
        Seq::empty()
    } else {
        flatten(frames.drop_last()) + frames.last()@
    }
}

/// The cursor of an accumulator at `rate` after `n` samples from a fresh start.
pub open spec fn cursor_after(rate: nat, n: nat) -> int {
    (n * TARGET_SAMPLE_RATE) as int % (rate as int)
}

/// The resampler keeps exact time: pushing one more sample from the cursor
/// reached after `n` samples yields the cursor reached after `n + 1`, and
/// the output samples due for it bring the running total to exactly
/// `floor((n + 1) * 48000 / rate)`.
pub proof fn law_resampling_keeps_exact_time(rate: nat, n: nat)
    requires
        rate > 0,
    ensures
        (cursor_after(rate, n) + TARGET_SAMPLE_RATE) % (rate as int) == cursor_after(rate, n + 1),
        (n * TARGET_SAMPLE_RATE) as int / (rate as int) + (cursor_after(rate, n) + TARGET_SAMPLE_RATE) / (
        rate as int) == ((n + 1) * TARGET_SAMPLE_RATE) as int / (rate as int),
{
    let r: int = rate as int;
    let x: int = (n * TARGET_SAMPLE_RATE) as int;
    let q: int = x / r;
    let c: int = x % r;
    vstd::arithmetic::div_mod::lemma_fundamental_div_mod(x, r);
    vstd::arithmetic::div_mod::lemma_mod_pos_bound(x, r);
    let y: int = c + TARGET_SAMPLE_RATE;
    let q2: int = y / r;
    let c2: int = y % r;
    vstd::arithmetic::div_mod::lemma_fundamental_div_mod(y, r);
    vstd::arithmetic::div_mod::lemma_mod_pos_bound(y, r);
    assert(((n + 1) * TARGET_SAMPLE_RATE) as int == x + TARGET_SAMPLE_RATE);
    assert(x + TARGET_SAMPLE_RATE == (q + q2) * r + c2) by (nonlinear_arith)
        requires
            x == r * q + c,
            y == c + TARGET_SAMPLE_RATE,
            y == r * q2 + c2,
    ;
    vstd::arithmetic::div_mod::lemma_fundamental_div_mod_converse(x + TARGET_SAMPLE_RATE, r, q + q2, c2);
}

/// The output due for `xs` fed one by one from cursor `c0`: each sample
/// repeated as many times as its step's `(cursor + 48000) / rate`.
pub open spec fn resampled(rate: nat, c0: int, xs: Seq<i16>) -> Seq<i16>
    decreases xs.len(),
{
    if xs.len() == 0 || rate == 0 {
        Seq::empty()
    } else {
        resampled(rate, c0, xs.drop_last()) + Seq::new(
            ((cursor_from(rate, c0, xs.drop_last()) + TARGET_SAMPLE_RATE) / (rate as int)) as nat,
            |_i: int| xs.last(),
        )
    }
}

/// The cursor after feeding `xs` from cursor `c0`.
pub open spec fn cursor_from(rate: nat, c0: int, xs: Seq<i16>) -> int
    decreases xs.len(),
{
    if xs.len() == 0 || rate == 0 {
        c0
    } else {
        (cursor_from(rate, c0, xs.drop_last()) + TARGET_SAMPLE_RATE) % (rate as int)
    }
}

/// How many 48 kHz output samples fall due within the first `i` input samples at `rate`.
pub open spec fn due(rate: nat, i: nat) -> int {
    (i * TARGET_SAMPLE_RATE) as int / (rate as int)
}

/// `xs` at 48 kHz as a fresh accumulator paces it: the `i`-th sample
/// (from 1) repeated `due(i) - due(i - 1)` times.
pub open spec fn paced(rate: nat, xs: Seq<i16>) -> Seq<i16>
    decreases xs.len(),
{
    if xs.len() == 0 {
        Seq::empty()
    } else {
        paced(rate, xs.drop_last()) + Seq::new(
            (due(rate, xs.len()) - due(rate, (xs.len() - 1) as nat)) as nat,
            |_i: int| xs.last(),
        )
    }
}

/// Resampling from a fresh accumulator over any number of samples: the
/// cursor after `n` samples is `(n * 48000) % rate`, and the output is each
/// sample repeated exactly as many times as 48 kHz samples fall due during
/// it — `floor(i * 48000 / rate) - floor((i - 1) * 48000 / rate)` for the
/// `i`-th — so `n` samples give `floor(n * 48000 / rate)` outputs in all.
pub proof fn law_resampling_paces_any_stream(rate: nat, xs: Seq<i16>)
    requires
        rate > 0,
    ensures
        cursor_from(rate, 0, xs) == cursor_after(rate, xs.len()),
        resampled(rate, 0, xs) == paced(rate, xs),
        resampled(rate, 0, xs).len() == due(rate, xs.len()),
    decreases xs.len(),
{
    if xs.len() == 0 {
        assert(0int % (rate as int) == 0 && 0int / (rate as int) == 0) by (nonlinear_arith)
            requires
                rate > 0,
        ;
        assert(cursor_after(rate, 0) == 0);
        assert(due(rate, 0) == 0);
    } else {
        let n = (xs.len() - 1) as nat;
        law_resampling_paces_any_stream(rate, xs.drop_last());
        law_resampling_keeps_exact_time(rate, n);
        assert(xs.drop_last().len() == n);
        assert(n + 1 == xs.len());
    }
}

proof fn lemma_flatten_concat(a: Seq<Vec<i16>>, b: Seq<Vec<i16>>)
    ensures
        flatten(a + b) == flatten(a) + flatten(b),
    decreases b.len(),
{
    if b.len() == 0 {
        assert(a + b =~= a);
        assert(flatten(a) + flatten(b) =~= flatten(a));
    } else {
        lemma_flatten_concat(a, b.drop_last());
        assert((a + b).drop_last() =~= a + b.drop_last());
        assert((a + b).last() == b.last());
        assert(flatten(a) + flatten(b) =~= flatten(a) + flatten(b.drop_last()) + b.last()@);
    }
}

/// Turns captured mono samples at `source_rate` into 48 kHz frames of
/// `FRAME_SIZE_SAMPLES` samples by nearest-sample resampling.
pub struct FrameAccumulator {
    pub source_rate: u32,
    pub channels: usize,
    pub resample_cursor: u64,
    pub frame: Vec<i16>,
}

impl FrameAccumulator {
    /// The cursor is below the source rate and the pending frame is not yet full.
    pub open spec fn wf(&self) -> bool {
        &&& self.source_rate > 0
        &&& self.resample_cursor < self.source_rate
        &&& self.frame@.len() < FRAME_SIZE_SAMPLES
    }

    /// An accumulator for a stream of `channels` channels at `source_rate`.
    pub fn new(source_rate: u32, channels: usize) -> (a: FrameAccumulator)
        ensures
            a.source_rate == source_rate,
            a.channels == channels,
            a.resample_cursor == 0,
            a.frame@.len() == 0,
            source_rate > 0 ==> a.wf(),
    {
        FrameAccumulator {
            source_rate,
            channels,
            resample_cursor: 0,
            frame: Vec::with_capacity(FRAME_SIZE_SAMPLES * 2),
        }
    }

    /// Feeds one mono sample. It is repeated as many times as 48 kHz output
    /// samples fall due, `(cursor + 48000) / source_rate`; the frames that
    /// fill up on the way are returned in order.
    pub fn push_resampled(&mut self, sample: i16) -> (frames: Vec<Vec<i16>>)
        requires
            old(self).wf(),
        ensures
            final(self).wf(),
            final(self).source_rate == old(self).source_rate,
            final(self).channels == old(self).channels,
            final(self).resample_cursor == (old(self).resample_cursor + TARGET_SAMPLE_RATE) % (old(
                self,
            ).source_rate as int),
            flatten(frames@) + final(self).frame@ == old(self).frame@ + Seq::new(
                ((old(self).resample_cursor + TARGET_SAMPLE_RATE) / (old(self).source_rate as int)) as nat,
                |_i: int| sample,
            ),
            forall|i: int| 0 <= i < frames@.len() ==> (#[trigger] frames@[i])@.len() == FRAME_SIZE_SAMPLES,
    {
        let ghost total = old(self).resample_cursor + TARGET_SAMPLE_RATE;
        let ghost start = old(self).frame@;
        let mut out: Vec<Vec<i16>> = Vec::new();
        self.resample_cursor = self.resample_cursor + TARGET_SAMPLE_RATE as u64;
        let rate: u64 = self.source_rate as u64;
        let mut count: u64 = 0;
        while self.resample_cursor >= rate
            invariant
                rate == self.source_rate,
                rate > 0,
                self.source_rate == old(self).source_rate,
                self.channels == old(self).channels,
                self.resample_cursor + count * rate == total,
                count <= total,
                total <= u32::MAX + TARGET_SAMPLE_RATE,
                self.frame@.len() < FRAME_SIZE_SAMPLES,
                flatten(out@) + self.frame@ == start + Seq::new(count as nat, |_i: int| sample),
                forall|i: int| 0 <= i < out@.len() ==> (#[trigger] out@[i])@.len() == FRAME_SIZE_SAMPLES,
            decreases self.resample_cursor,
        {
            let ghost prev_out = out@;
            let ghost prev_frame = self.frame@;
            self.resample_cursor = self.resample_cursor - rate;
            self.frame.push(sample);
            proof {
                assert((count + 1) * rate == count * rate + rate) by (nonlinear_arith);
                assert((count + 1) * rate >= count + 1) by (nonlinear_arith)
                    requires
                        rate > 0,
                ;
                assert(start + Seq::new((count + 1) as nat, |_i: int| sample) =~= (start + Seq::new(
                    count as nat,
                    |_i: int| sample,
                )).push(sample));
                assert(flatten(out@) + self.frame@ =~= (flatten(out@) + prev_frame).push(sample));
            }
            count = count + 1;
            if self.frame.len() == FRAME_SIZE_SAMPLES {
                let mut packet: Vec<i16> = Vec::with_capacity(FRAME_SIZE_SAMPLES * 2);
                std::mem::swap(&mut packet, &mut self.frame);
                out.push(packet);
                proof {
                    assert(out@.drop_last() =~= prev_out);
                    assert(flatten(out@) == flatten(prev_out) + packet@);
                    assert(flatten(out@) + self.frame@ =~= flatten(out@));
                }
            }
        }
        proof {
            vstd::arithmetic::div_mod::lemma_fundamental_div_mod_converse(
                total as int,
                rate as int,
                count as int,
                self.resample_cursor as int,
            );
        }
        out
    }

    /// Feeds mono samples in order, as `push_resampled` one after another,
    /// and returns every frame that filled up, in order.
    pub fn push_samples(&mut self, samples: &Vec<i16>) -> (frames: Vec<Vec<i16>>)
        requires
            old(self).wf(),
        ensures
            final(self).wf(),
            final(self).source_rate == old(self).source_rate,
            final(self).channels == old(self).channels,
            final(self).resample_cursor == cursor_from(
                old(self).source_rate as nat,
                old(self).resample_cursor as int,
                samples@,
            ),
            flatten(frames@) + final(self).frame@ == old(self).frame@ + resampled(
                old(self).source_rate as nat,
                old(self).resample_cursor as int,
                samples@,
            ),
            forall|i: int| 0 <= i < frames@.len() ==> (#[trigger] frames@[i])@.len() == FRAME_SIZE_SAMPLES,
    {
        let ghost rate = old(self).source_rate as nat;
        let ghost c0 = old(self).resample_cursor as int;
        let mut out: Vec<Vec<i16>> = Vec::new();
        let mut i: usize = 0;
        proof {
            assert(samples@.take(0) =~= Seq::<i16>::empty());
            assert(old(self).frame@ + Seq::<i16>::empty() =~= old(self).frame@);
            assert(flatten(out@) =~= Seq::<i16>::empty());
        }
        while i < samples.len()
            invariant
                i <= samples@.len(),
                self.wf(),
                self.source_rate == old(self).source_rate,
                self.channels == old(self).channels,
                rate == self.source_rate,
                self.resample_cursor == cursor_from(rate, c0, samples@.take(i as int)),
                flatten(out@) + self.frame@ == old(self).frame@ + resampled(rate, c0, samples@.take(i as int)),
                forall|k: int| 0 <= k < out@.len() ==> (#[trigger] out@[k])@.len() == FRAME_SIZE_SAMPLES,
            decreases samples@.len() - i,
        {
            let ghost prev_out = out@;
            let ghost prev_frame = self.frame@;
            let ghost prev_cursor = self.resample_cursor;
            let mut fresh = self.push_resampled(samples[i]);
            let ghost fresh_frames = fresh@;
            out.append(&mut fresh);
            proof {
                let t = samples@.take(i as int + 1);
                assert(t.drop_last() =~= samples@.take(i as int));
                assert(t.last() == samples@[i as int]);
                lemma_flatten_concat(prev_out, fresh_frames);
                assert(out@ =~= prev_out + fresh_frames);
                let rep = Seq::new(
                    ((prev_cursor + TARGET_SAMPLE_RATE) / (rate as int)) as nat,
                    |_j: int| samples@[i as int],
                );
                assert(resampled(rate, c0, t) == resampled(rate, c0, samples@.take(i as int)) + rep);
                assert(flatten(fresh_frames) + self.frame@ =~= prev_frame + rep);
                assert(flatten(out@) + self.frame@ =~= flatten(prev_out) + (flatten(fresh_frames) + self.frame@));
                assert(flatten(out@) + self.frame@ =~= (flatten(prev_out) + prev_frame) + rep);
                assert forall|k: int| 0 <= k < out@.len() implies (#[trigger] out@[k])@.len() == FRAME_SIZE_SAMPLES by {
                    if k < prev_out.len() {
                        assert(out@[k] == prev_out[k]);
                    } else {
                        assert(out@[k] == fresh_frames[k - prev_out.len()]);
                    }
                }
            }
            i = i + 1;
        }
        proof {
            assert(samples@.take(samples@.len() as int) =~= samples@);
        }
        out
    }
}

} // verus!
