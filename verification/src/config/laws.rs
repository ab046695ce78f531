//! What holds of every sequence of calls on a builder.

use crate::config;
use crate::config::{DirectSampling, F32Iq, GainConfig, RawIq, SampleFormat, SampleMode, Settings};
use vstd::prelude::*;

verus! {

/// A call on a [`config::ConfigBuilder`] with its argument.
pub enum BuilderCall {
    /// [`config::ConfigBuilder::frequency_hz`].
    FrequencyHz(u64),
    /// [`config::ConfigBuilder::sample_rate_hz`].
    SampleRateHz(u32),
    /// [`config::ConfigBuilder::gain`].
    Gain(GainConfig),
    /// [`config::ConfigBuilder::correction_ppm`].
    CorrectionPpm(i32),
    /// [`config::ConfigBuilder::bias_tee`].
    BiasTee(bool),
    /// [`config::ConfigBuilder::direct_sampling`].
    DirectSampling(DirectSampling),
    /// [`config::ConfigBuilder::raw_iq`].
    RawIq,
}

impl BuilderCall {
    /// What the call makes of settings.
    pub open spec fn applied(self, settings: Settings) -> Settings {
        match self {
            BuilderCall::FrequencyHz(frequency_hz) => Settings { frequency_hz, ..settings },
            BuilderCall::SampleRateHz(sample_rate_hz) => Settings { sample_rate_hz, ..settings },
            BuilderCall::Gain(gain) => Settings { gain, ..settings },
            BuilderCall::CorrectionPpm(correction_ppm) => Settings { correction_ppm, ..settings },
            BuilderCall::BiasTee(bias_tee) => Settings { bias_tee, ..settings },
            BuilderCall::DirectSampling(direct_sampling) => Settings {
                direct_sampling,
                ..settings
            },
            BuilderCall::RawIq => settings,
        }
    }

    /// Whether settings and sample format hold what the call asks for.
    pub open spec fn honored(self, settings: Settings, format: SampleFormat) -> bool {
        match self {
            BuilderCall::FrequencyHz(value) => settings.frequency_hz == value,
            BuilderCall::SampleRateHz(value) => settings.sample_rate_hz == value,
            BuilderCall::Gain(value) => settings.gain == value,
            BuilderCall::CorrectionPpm(value) => settings.correction_ppm == value,
            BuilderCall::BiasTee(value) => settings.bias_tee == value,
            BuilderCall::DirectSampling(value) => settings.direct_sampling == value,
            BuilderCall::RawIq => format == SampleFormat::RawIq,
        }
    }

    /// Whether both calls are calls of the same function.
    pub open spec fn same_function(self, other: BuilderCall) -> bool {
        match self {
            BuilderCall::FrequencyHz(_) => other is FrequencyHz,
            BuilderCall::SampleRateHz(_) => other is SampleRateHz,
            BuilderCall::Gain(_) => other is Gain,
            BuilderCall::CorrectionPpm(_) => other is CorrectionPpm,
            BuilderCall::BiasTee(_) => other is BiasTee,
            BuilderCall::DirectSampling(_) => other is DirectSampling,
            BuilderCall::RawIq => other is RawIq,
        }
    }
}

/// The settings of a builder that [`config::Config::builder`] made, after calls on it.
pub open spec fn built_settings(calls: Seq<BuilderCall>) -> Settings
    decreases calls.len(),
{
    if calls.len() == 0 {
        Settings::initial()
    } else {
        calls.last().applied(built_settings(calls.drop_last()))
    }
}

/// The sample format of a builder that [`config::Config::builder`] made, after calls on it: that of the
/// sample mode in its type, which only [`config::ConfigBuilder::raw_iq`] changes.
pub open spec fn built_format(calls: Seq<BuilderCall>) -> SampleFormat
    decreases calls.len(),
{
    if calls.len() == 0 {
        F32Iq::FORMAT
    } else if calls.last() is RawIq {
        RawIq::FORMAT
    } else {
        built_format(calls.drop_last())
    }
}

/// Whether no call calls the same function as `call`.
pub open spec fn never_called(calls: Seq<BuilderCall>, call: BuilderCall) -> bool {
    forall|i: int| 0 <= i < calls.len() ==> !call.same_function(#[trigger] calls[i])
}

/// A builder holds the last value that each of its functions was given, whatever calls of other
/// functions stand before or after, and the initial value of what was never set. The sample
/// format is raw exactly if that was asked for.
pub proof fn the_last_call_counts(calls: Seq<BuilderCall>)
    ensures
        forall|i: int|
            0 <= i < calls.len() && never_called(calls.skip(i + 1), #[trigger] calls[i])
                ==> calls[i].honored(built_settings(calls), built_format(calls)),
        (forall|i: int| 0 <= i < calls.len() ==> !(#[trigger] calls[i] is FrequencyHz)) ==> built_settings(
            calls,
        ).frequency_hz == 100_000_000,
        (forall|i: int| 0 <= i < calls.len() ==> !(#[trigger] calls[i] is SampleRateHz)) ==> built_settings(
            calls,
        ).sample_rate_hz == 2_048_000,
        (forall|i: int| 0 <= i < calls.len() ==> !(#[trigger] calls[i] is Gain)) ==> built_settings(
            calls,
        ).gain == GainConfig::Auto,
        (forall|i: int| 0 <= i < calls.len() ==> !(#[trigger] calls[i] is CorrectionPpm)) ==> built_settings(
            calls,
        ).correction_ppm == 0,
        (forall|i: int| 0 <= i < calls.len() ==> !(#[trigger] calls[i] is BiasTee)) ==> built_settings(
            calls,
        ).bias_tee == false,
        (forall|i: int| 0 <= i < calls.len() ==> !(#[trigger] calls[i] is DirectSampling)) ==> built_settings(
            calls,
        ).direct_sampling == DirectSampling::Off,
        built_format(calls) == if exists|i: int|
            0 <= i < calls.len() && #[trigger] calls[i] is RawIq {
            SampleFormat::RawIq
        } else {
            SampleFormat::F32Iq
        },
    decreases calls.len(),
{
    config::formats_are_named_after_their_modes();
    if calls.len() > 0 {
        let front = calls.drop_last();
        let last = calls.last();
        the_last_call_counts(front);
        assert forall|i: int|
            0 <= i < calls.len() && never_called(calls.skip(i + 1), #[trigger] calls[i]) implies calls[i].honored(
            built_settings(calls),
            built_format(calls),
        ) by {
            if i < front.len() {
                assert(front[i] == calls[i]);
                assert(calls.skip(i + 1).last() == last);
                assert(!calls[i].same_function(calls.skip(i + 1)[calls.len() - i - 2]));
                assert forall|j: int| 0 <= j < front.skip(i + 1).len() implies !calls[i].same_function(
                    #[trigger] front.skip(i + 1)[j],
                ) by {
                    assert(front.skip(i + 1)[j] == calls.skip(i + 1)[j]);
                }
                assert(never_called(front.skip(i + 1), front[i]));
            }
        }
        assert(calls[calls.len() - 1] == last);
        assert forall|i: int| 0 <= i < front.len() implies #[trigger] front[i] == calls[i] by {}
        if exists|i: int| 0 <= i < front.len() && #[trigger] front[i] is RawIq {
            let i = choose|i: int| 0 <= i < front.len() && #[trigger] front[i] is RawIq;
            assert(calls[i] is RawIq);
        }
        if exists|i: int| 0 <= i < calls.len() && #[trigger] calls[i] is RawIq {
            let i = choose|i: int| 0 <= i < calls.len() && #[trigger] calls[i] is RawIq;
            assert(i < front.len() ==> front[i] is RawIq);
        }
    }
}

} // verus!
