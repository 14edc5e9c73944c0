use vstd::prelude::*;

use crate::device::{usrp_of, DeviceUHD, DeviceView};
use crate::error::{SDRError, SDRResult};
use crate::handle::{HandleKind, NativeHandle};
use crate::rx::RxUHD;
use crate::sample::{cpu_format_of, otw_format_of, SampleType};
use crate::tx::TxUHD;

verus! {

/// The arguments a streamer is bound with: cpu and over-the-wire sample
/// formats, an implementation-defined argument string and the channels.
pub struct StreamArgs {
    pub cpu_format: String,
    pub otw_format: String,
    pub args: String,
    pub channels: Vec<usize>,
}

pub fn get_stream_args(cpu_fmt: &str, otw_fmt: &str, args: &str, channels: &[usize]) -> (r: StreamArgs)
    ensures
        r.cpu_format@ == cpu_fmt@,
        r.otw_format@ == otw_fmt@,
        r.args@ == args@,
        r.channels@ == channels@,
{
    let mut chans: Vec<usize> = Vec::new();
    let mut i: usize = 0;
    while i < channels.len()
        invariant
            i <= channels.len(),
            chans@ == channels@.subrange(0, i as int),
        decreases channels.len() - i,
    {
        chans.push(channels[i]);
        assert(chans@ =~= channels@.subrange(0, i + 1));
        i = i + 1;
    }
    assert(chans@ =~= channels@);
    StreamArgs {
        cpu_format: cpu_fmt.to_owned(),
        otw_format: otw_fmt.to_owned(),
        args: args.to_owned(),
        channels: chans,
    }
}

/// How far the building of a streamer has got.
#[derive(Clone, Copy, Debug, PartialEq, Eq, Structural)]
pub enum Stage {
    MakeStreamer,
    MakeMetadata,
    Bind,
    QueryMax,
    Start,
    Ready,
    Failed,
}

/// The native call that building a streamer needs next.
#[derive(Clone, Copy, Debug, PartialEq, Eq, Structural)]
pub enum StreamCall {
    /// Make a streamer handle (receive or transmit).
    MakeStreamer { rx: bool },
    /// Make the receive metadata handle.
    MakeMetadata,
    /// Bind the streamer to the device with the builder's stream arguments.
    Bind { rx: bool, usrp: usize, streamer: usize },
    /// Query how many samples one call of the streamer moves.
    QueryMax { rx: bool, streamer: usize },
    /// Start continuous receiving now, `num_samps` samples per command.
    StartContinuous { streamer: usize, num_samps: usize },
    /// Nothing more: the builder is finished, well or not.
    Finished,
}

/// What a caller can observe of a builder.
pub struct BuilderView {
    pub rx: bool,
    pub usrp: usize,
    pub stage: Stage,
    pub streamer: Option<usize>,
    pub md: Option<usize>,
    pub max: usize,
}

/// Builds one streamer, one native call at a time; the first failure ends it.
pub struct StreamBuilder {
    rx: bool,
    usrp: usize,
    args: StreamArgs,
    stage: Stage,
    streamer: Option<NativeHandle>,
    md: Option<NativeHandle>,
    max: usize,
    error: Option<SDRError>,
}

pub open spec fn token_of(h: Option<NativeHandle>) -> Option<usize> {
    match h {
        Some(h) => Some(h@.1),
        None => None,
    }
}

/// The call that a builder in state `b` needs next.
pub open spec fn call_of(b: BuilderView) -> StreamCall {
    match b.stage {
        Stage::MakeStreamer => StreamCall::MakeStreamer { rx: b.rx },
        Stage::MakeMetadata => StreamCall::MakeMetadata,
        Stage::Bind => StreamCall::Bind { rx: b.rx, usrp: b.usrp, streamer: b.streamer->0 },
        Stage::QueryMax => StreamCall::QueryMax { rx: b.rx, streamer: b.streamer->0 },
        Stage::Start => StreamCall::StartContinuous { streamer: b.streamer->0, num_samps: b.max },
        _ => StreamCall::Finished,
    }
}

/// The stage after the current call succeeded.
pub open spec fn next_stage(b: BuilderView) -> Stage {
    match b.stage {
        Stage::MakeStreamer => if b.rx { Stage::MakeMetadata } else { Stage::Bind },
        Stage::MakeMetadata => Stage::Bind,
        Stage::Bind => Stage::QueryMax,
        Stage::QueryMax => if b.rx { Stage::Start } else { Stage::Ready },
        _ => Stage::Ready,
    }
}

/// The state after the current call succeeded with `value`: the handle it
/// made, the limit it reported, or nothing of interest.
pub open spec fn after_success(b: BuilderView, value: usize) -> BuilderView {
    match b.stage {
        Stage::MakeStreamer => BuilderView { stage: next_stage(b), streamer: Some(value), ..b },
        Stage::MakeMetadata => BuilderView { stage: next_stage(b), md: Some(value), ..b },
        Stage::QueryMax => BuilderView { stage: next_stage(b), max: value, ..b },
        _ => BuilderView { stage: next_stage(b), ..b },
    }
}

/// The state after the current call failed.
pub open spec fn after_failure(b: BuilderView) -> BuilderView {
    BuilderView { stage: Stage::Failed, ..b }
}

/// A builder before its first call.
pub open spec fn fresh_view(rx: bool, usrp: usize) -> BuilderView {
    BuilderView { rx, usrp, stage: Stage::MakeStreamer, streamer: None, md: None, max: 0 }
}

/// The handles made so far, in the order they were made.
pub open spec fn made_tokens(b: BuilderView) -> Seq<usize> {
    held_tokens(b.streamer, b.md)
}

/// The tokens of a streamer and a metadata handle, those that are held.
pub open spec fn held_tokens(streamer: Option<usize>, md: Option<usize>) -> Seq<usize> {
    match (streamer, md) {
        (Some(s), Some(m)) => seq![s, m],
        (Some(s), None) => seq![s],
        (None, Some(m)) => seq![m],
        (None, None) => seq![],
    }
}

pub open spec fn handle_tokens(hs: Seq<NativeHandle>) -> Seq<usize> {
    hs.map_values(|h: NativeHandle| h@.1)
}

impl StreamBuilder {
    pub closed spec fn view(&self) -> BuilderView {
        BuilderView {
            rx: self.rx,
            usrp: self.usrp,
            stage: self.stage,
            streamer: token_of(self.streamer),
            md: token_of(self.md),
            max: self.max,
        }
    }

    /// The arguments that the `Bind` call passes on.
    pub closed spec fn stream_args(&self) -> StreamArgs {
        self.args
    }

    pub closed spec fn failure(&self) -> Option<SDRError> {
        self.error
    }

    pub closed spec fn wf(&self) -> bool {
        &&& (self.streamer matches Some(h) ==> h@.0 == if self.rx {
            HandleKind::RxStreamer
        } else {
            HandleKind::TxStreamer
        })
        &&& (self.md matches Some(h) ==> h@.0 == HandleKind::RxMetadata)
        &&& (self.md is Some ==> self.rx)
        &&& (self.error is Some <==> self.stage == Stage::Failed)
        &&& match self.stage {
            Stage::MakeStreamer => self.streamer is None && self.md is None,
            Stage::MakeMetadata => self.rx && self.streamer is Some && self.md is None,
            Stage::Bind | Stage::QueryMax | Stage::Ready => self.streamer is Some && (self.md is Some
                <==> self.rx),
            Stage::Start => self.rx && self.streamer is Some && self.md is Some,
            Stage::Failed => true,
        }
    }

    /// A builder for a streamer on the device `usrp`, before any native call.
    pub fn new(rx: bool, usrp: usize, args: StreamArgs) -> (r: StreamBuilder)
        ensures
            r.wf(),
            r.view() == fresh_view(rx, usrp),
            r.stream_args() == args,
    {
        StreamBuilder {
            rx,
            usrp,
            args,
            stage: Stage::MakeStreamer,
            streamer: None,
            md: None,
            max: 0,
            error: None,
        }
    }

    /// The arguments that the `Bind` call passes on.
    pub fn args(&self) -> (r: &StreamArgs)
        ensures
            *r == self.stream_args(),
    {
        &self.args
    }

    pub fn stage(&self) -> (r: Stage)
        ensures
            r == self.view().stage,
    {
        self.stage
    }

    /// The native call to make next.
    pub fn next_call(&self) -> (r: StreamCall)
        requires
            self.wf(),
        ensures
            r == call_of(self.view()),
    {
        match self.stage {
            Stage::MakeStreamer => StreamCall::MakeStreamer { rx: self.rx },
            Stage::MakeMetadata => StreamCall::MakeMetadata,
            Stage::Bind => {
                let s = self.streamer.as_ref().unwrap().raw();
                StreamCall::Bind { rx: self.rx, usrp: self.usrp, streamer: s }
            },
            Stage::QueryMax => {
                let s = self.streamer.as_ref().unwrap().raw();
                StreamCall::QueryMax { rx: self.rx, streamer: s }
            },
            Stage::Start => {
                let s = self.streamer.as_ref().unwrap().raw();
                StreamCall::StartContinuous { streamer: s, num_samps: self.max }
            },
            _ => StreamCall::Finished,
        }
    }

    /// Hands over the outcome of a `MakeStreamer` or `MakeMetadata` call.
    pub fn on_made(&mut self, made: SDRResult<NativeHandle>)
        requires
            old(self).wf(),
            old(self).view().stage == Stage::MakeStreamer || old(self).view().stage == Stage::MakeMetadata,
            made matches Ok(h) ==> h@.0 == if old(self).view().stage == Stage::MakeMetadata {
                HandleKind::RxMetadata
            } else if old(self).view().rx {
                HandleKind::RxStreamer
            } else {
                HandleKind::TxStreamer
            },
        ensures
            final(self).wf(),
            final(self).stream_args() == old(self).stream_args(),
            match made {
                Ok(h) => final(self).view() == after_success(old(self).view(), h@.1),
                Err(e) => final(self).view() == after_failure(old(self).view()) && final(self).failure() == Some(e),
            },
    {
        match made {
            Ok(h) => {
                if self.stage == Stage::MakeStreamer {
                    self.streamer = Some(h);
                    self.stage = if self.rx { Stage::MakeMetadata } else { Stage::Bind };
                } else {
                    self.md = Some(h);
                    self.stage = Stage::Bind;
                }
            },
            Err(e) => {
                self.stage = Stage::Failed;
                self.error = Some(e);
            },
        }
    }

    /// Hands over the outcome of a `Bind`, `QueryMax` or `StartContinuous`
    /// call; for `QueryMax` the value is the samples-per-call limit.
    pub fn on_status(&mut self, reply: SDRResult<usize>)
        requires
            old(self).wf(),
            old(self).view().stage == Stage::Bind || old(self).view().stage == Stage::QueryMax
                || old(self).view().stage == Stage::Start,
        ensures
            final(self).wf(),
            final(self).stream_args() == old(self).stream_args(),
            match reply {
                Ok(n) => final(self).view() == after_success(old(self).view(), n),
                Err(e) => final(self).view() == after_failure(old(self).view()) && final(self).failure() == Some(e),
            },
    {
        match reply {
            Ok(n) => {
                if self.stage == Stage::Bind {
                    self.stage = Stage::QueryMax;
                } else if self.stage == Stage::QueryMax {
                    self.max = n;
                    self.stage = if self.rx { Stage::Start } else { Stage::Ready };
                } else {
                    self.stage = Stage::Ready;
                }
            },
            Err(e) => {
                self.stage = Stage::Failed;
                self.error = Some(e);
            },
        }
    }

    /// The finished transmit streamer; or, when a call failed, its error and
    /// every handle made before it, to free. No handle is lost either way.
    pub fn finish_tx<T>(self) -> (r: (SDRResult<TxUHD<T>>, Vec<NativeHandle>))
        requires
            self.wf(),
            !self.view().rx,
            self.view().stage == Stage::Ready || self.view().stage == Stage::Failed,
        ensures
            self.view().stage == Stage::Ready ==> {
                &&& r.0 matches Ok(tx) && tx.wf() && tx.max_samples() == self.view().max
                    && seq![tx.streamer_token()] == made_tokens(self.view())
                &&& r.1.len() == 0
            },
            self.view().stage == Stage::Failed ==> {
                &&& r.0 matches Err(e) && Some(e) == self.failure()
                &&& handle_tokens(r.1@) == made_tokens(self.view())
            },
    {
        let ghost v = self.view();
        let StreamBuilder { streamer, md, max, error, .. } = self;
        match error {
            Some(e) => (Err(e), handles_of(streamer, md)),
            None => {
                let s = streamer.unwrap();
                let tx = TxUHD::from_parts(s, max);
                assert(seq![tx.streamer_token()] =~= made_tokens(v));
                (Ok(tx), Vec::new())
            },
        }
    }

    /// The finished receive streamer, already streaming; or, when a call
    /// failed, its error and every handle made before it, to free.
    pub fn finish_rx<T>(self) -> (r: (SDRResult<RxUHD<T>>, Vec<NativeHandle>))
        requires
            self.wf(),
            self.view().rx,
            self.view().stage == Stage::Ready || self.view().stage == Stage::Failed,
        ensures
            self.view().stage == Stage::Ready ==> {
                &&& r.0 matches Ok(rx) && rx.wf() && rx.max_samples() == self.view().max
                    && seq![rx.streamer_token(), rx.metadata_token()] == made_tokens(self.view())
                &&& r.1.len() == 0
            },
            self.view().stage == Stage::Failed ==> {
                &&& r.0 matches Err(e) && Some(e) == self.failure()
                &&& handle_tokens(r.1@) == made_tokens(self.view())
            },
    {
        let ghost v = self.view();
        let StreamBuilder { streamer, md, max, error, .. } = self;
        match error {
            Some(e) => (Err(e), handles_of(streamer, md)),
            None => {
                let s = streamer.unwrap();
                let m = md.unwrap();
                let rx = RxUHD::from_parts(s, m, max);
                assert(seq![rx.streamer_token(), rx.metadata_token()] =~= made_tokens(v));
                (Ok(rx), Vec::new())
            },
        }
    }
}

/// The handles held, in the order they were made.
fn handles_of(streamer: Option<NativeHandle>, md: Option<NativeHandle>) -> (r: Vec<NativeHandle>)
    ensures
        handle_tokens(r@) == held_tokens(token_of(streamer), token_of(md)),
{
    let mut out: Vec<NativeHandle> = Vec::new();
    match streamer {
        Some(h) => out.push(h),
        None => {},
    }
    match md {
        Some(h) => out.push(h),
        None => {},
    }
    assert(handle_tokens(out@) =~= held_tokens(token_of(streamer), token_of(md)));
    out
}

/// Building a transmit streamer makes the streamer, binds it to the device
/// and queries its limit, in that order, then finishes holding the streamer
/// alone.
pub proof fn lemma_tx_build_order(usrp: usize, s: usize, bound: usize, max: usize)
    ensures
        call_of(fresh_view(false, usrp)) == (StreamCall::MakeStreamer { rx: false }),
        call_of(after_success(fresh_view(false, usrp), s)) == (StreamCall::Bind { rx: false, usrp, streamer: s }),
        call_of(after_success(after_success(fresh_view(false, usrp), s), bound)) == (StreamCall::QueryMax {
            rx: false,
            streamer: s,
        }),
        ({
            let done = after_success(after_success(after_success(fresh_view(false, usrp), s), bound), max);
            &&& call_of(done) == StreamCall::Finished
            &&& done.stage == Stage::Ready
            &&& done.max == max
            &&& made_tokens(done) == seq![s]
        }),
{
}

/// Building a receive streamer makes the streamer and then its metadata,
/// binds the streamer, queries its limit and, last, starts continuous
/// streaming with the limit just queried as the per-command sample count.
pub proof fn lemma_rx_build_order(usrp: usize, s: usize, m: usize, bound: usize, max: usize, started: usize)
    ensures
        ({
            let b1 = after_success(fresh_view(true, usrp), s);
            let b2 = after_success(b1, m);
            let b3 = after_success(b2, bound);
            let b4 = after_success(b3, max);
            let done = after_success(b4, started);
            &&& call_of(fresh_view(true, usrp)) == (StreamCall::MakeStreamer { rx: true })
            &&& call_of(b1) == StreamCall::MakeMetadata
            &&& call_of(b2) == (StreamCall::Bind { rx: true, usrp, streamer: s })
            &&& call_of(b3) == (StreamCall::QueryMax { rx: true, streamer: s })
            &&& call_of(b4) == (StreamCall::StartContinuous { streamer: s, num_samps: max })
            &&& call_of(done) == StreamCall::Finished
            &&& done.stage == Stage::Ready
            &&& made_tokens(done) == seq![s, m]
        }),
{
}

/// The first failed call ends a build: no further call is due, and the
/// handles made before it are the ones to free.
pub proof fn lemma_failure_ends_build(b: BuilderView)
    ensures
        call_of(after_failure(b)) == StreamCall::Finished,
        made_tokens(after_failure(b)) == made_tokens(b),
{
}

/// Whether `b` is a fresh builder for a streamer of `sample` on `channels`
/// of the device `usrp`.
pub open spec fn is_fresh_builder(
    b: StreamBuilder,
    rx: bool,
    usrp: usize,
    sample: SampleType,
    channels: Seq<usize>,
) -> bool {
    &&& b.wf()
    &&& b.view() == fresh_view(rx, usrp)
    &&& b.stream_args().cpu_format@ == cpu_format_of(sample)
    &&& b.stream_args().otw_format@ == otw_format_of(sample)
    &&& b.stream_args().args@ == ""@
    &&& b.stream_args().channels@ == channels
}

impl DeviceUHD {
    fn new_streamer(&self, rx: bool, sample: SampleType, channels: &[usize]) -> (r: SDRResult<StreamBuilder>)
        ensures
            is_stream_start(self@, rx, sample, channels@, r),
    {
        let h = match self.use_usrp() {
            Ok(h) => h,
            Err(e) => return Err(e),
        };
        let (cpu_fmt, otw_fmt) = sample.formats();
        let args = get_stream_args(cpu_fmt, otw_fmt, "", channels);
        Ok(StreamBuilder::new(rx, h, args))
    }

    /// Starts building a transmit streamer of `sample` on `channels`: the
    /// builder then makes the streamer, binds it and queries its limit.
    /// `NotOpen` before the device is opened, with no native call made.
    pub fn new_tx_streamer(&self, sample: SampleType, channels: &[usize]) -> (r: SDRResult<StreamBuilder>)
        ensures
            is_stream_start(self@, false, sample, channels@, r),
    {
        self.new_streamer(false, sample, channels)
    }

    /// Starts building a receive streamer of `sample` on `channels`: the
    /// builder then makes the streamer and its metadata, binds the streamer,
    /// queries its limit and starts continuous streaming at once.
    /// `NotOpen` before the device is opened, with no native call made.
    pub fn new_rx_streamer(&self, sample: SampleType, channels: &[usize]) -> (r: SDRResult<StreamBuilder>)
        ensures
            is_stream_start(self@, true, sample, channels@, r),
    {
        self.new_streamer(true, sample, channels)
    }
}

/// Whether `r` is what starting a build of a streamer (receive when `rx`) of
/// `sample` on `channels` gives on a device in state `d`: `NotOpen` before it
/// is opened, else a fresh builder on its native device.
pub open spec fn is_stream_start(
    d: DeviceView,
    rx: bool,
    sample: SampleType,
    channels: Seq<usize>,
    r: SDRResult<StreamBuilder>,
) -> bool {
    match usrp_of(d) {
        Err(_) => r matches Err(SDRError::NotOpen),
        Ok(h) => r matches Ok(b) && is_fresh_builder(b, rx, h, sample, channels),
    }
}

/// A device that transmit streamers can be built on.
pub trait CreateTx {
    /// Whether `r` is what `tx_stream` gives for `sample` on `channels`.
    spec fn tx_stream_result(&self, sample: SampleType, channels: Seq<usize>, r: SDRResult<StreamBuilder>) -> bool;

    fn tx_stream(&self, sample: SampleType, channels: &[usize]) -> (r: SDRResult<StreamBuilder>)
        ensures
            self.tx_stream_result(sample, channels@, r),
    ;
}

/// A device that receive streamers can be built on.
pub trait CreateRx {
    /// Whether `r` is what `rx_stream` gives for `sample` on `channels`.
    spec fn rx_stream_result(&self, sample: SampleType, channels: Seq<usize>, r: SDRResult<StreamBuilder>) -> bool;

    fn rx_stream(&self, sample: SampleType, channels: &[usize]) -> (r: SDRResult<StreamBuilder>)
        ensures
            self.rx_stream_result(sample, channels@, r),
    ;
}

impl CreateTx for DeviceUHD {
    open spec fn tx_stream_result(&self, sample: SampleType, channels: Seq<usize>, r: SDRResult<StreamBuilder>) -> bool {
        is_stream_start(self@, false, sample, channels, r)
    }

    /// Starts building a transmit streamer, as `new_tx_streamer` does.
    fn tx_stream(&self, sample: SampleType, channels: &[usize]) -> (r: SDRResult<StreamBuilder>) {
        self.new_tx_streamer(sample, channels)
    }
}

impl CreateRx for DeviceUHD {
    open spec fn rx_stream_result(&self, sample: SampleType, channels: Seq<usize>, r: SDRResult<StreamBuilder>) -> bool {
        is_stream_start(self@, true, sample, channels, r)
    }

    /// Starts building a receive streamer, as `new_rx_streamer` does.
    fn rx_stream(&self, sample: SampleType, channels: &[usize]) -> (r: SDRResult<StreamBuilder>) {
        self.new_rx_streamer(sample, channels)
    }
}

} // verus!
