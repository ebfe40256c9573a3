use vstd::prelude::*;
use crate::sample::{Sample, SampleType};
use crate::state::{handled, Action, AudioCloud, Message};
use crate::status::StatusBarLevel;
use crate::text::owned;

verus! {

/// The sample opened in the editor. Its decoded audio and waveform are
/// held next to it by the host, which owns the audio buffer.
#[derive(Clone, Debug, PartialEq, Eq)]
pub struct Editor {
    pub sample: Sample,
}

/// A user action or a completion in the editor.
#[derive(Clone, Copy, Debug, PartialEq, Eq, Structural)]
pub enum EditorEvent {
    PlaybackStart,
    ReloadWaveform,
    WaveformReloaded,
}

impl Editor {
    /// Opens `sample` in the editor.
    pub fn load_sample(&mut self, sample: Sample)
        ensures
            final(self).sample == sample,
    {
        self.sample = sample;
    }

    /// An editor with a placeholder sample.
    pub fn empty() -> (r: Self)
        ensures
            r.sample.name@ == "none"@,
            r.sample.path@ == "none"@,
            r.sample.sampletype == SampleType::OneShot,
    {
        Editor {
            sample: Sample {
                name: owned("none"),
                path: owned("none"),
                sampletype: SampleType::OneShot,
            },
        }
    }
}

/// Handles an event of the editor.
pub fn editor_event(app: &mut AudioCloud, event: EditorEvent) -> (r: Action)
    ensures
        handled(*old(app), *final(app), Message::Editor(event), r),
{
    match event {
        EditorEvent::ReloadWaveform => Action::ReloadWaveform,
        EditorEvent::WaveformReloaded => {
            app.status.set(StatusBarLevel::Succes, "Loaded Waveform");
            Action::Nothing
        },
        EditorEvent::PlaybackStart => Action::Nothing,
    }
}

} // verus!
