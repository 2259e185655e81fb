use vstd::prelude::*;

use crate::layout::StreamSize;
use crate::utils::same_text;

verus! {

/// An audio input mixed into the recording.
#[derive(Clone, Copy, Debug, PartialEq, Eq, Structural)]
pub enum AudioSource {
    /// What the desktop plays.
    DesktopAudio,
    /// The default microphone.
    Microphone,
}

/// Name given to the level meter of an audio branch; bus messages from the
/// meter carry it back.
pub open spec fn level_name_spec(source: AudioSource) -> Seq<char> {
    match source {
        AudioSource::DesktopAudio => "desktop-audio-level"@,
        AudioSource::Microphone => "microphone-level"@,
    }
}

/// The audio source whose level meter is named `name`, if any.
pub open spec fn source_of_level_name(name: Seq<char>) -> Option<AudioSource> {
    if name == level_name_spec(AudioSource::DesktopAudio) {
        Some(AudioSource::DesktopAudio)
    } else if name == level_name_spec(AudioSource::Microphone) {
        Some(AudioSource::Microphone)
    } else {
        None
    }
}

impl AudioSource {
    /// Name of the level meter element of this source's branch.
    pub fn level_name(self) -> (name: &'static str)
        ensures
            name@ == level_name_spec(self),
    {
        match self {
            AudioSource::DesktopAudio => "desktop-audio-level",
            AudioSource::Microphone => "microphone-level",
        }
    }

    /// The source whose level meter bears `name`; `None` for any other name.
    pub fn from_level_name(name: &str) -> (source: Option<AudioSource>)
        ensures
            source == source_of_level_name(name@),
    {
        if same_text(name, AudioSource::DesktopAudio.level_name()) {
            Some(AudioSource::DesktopAudio)
        } else if same_text(name, AudioSource::Microphone.level_name()) {
            Some(AudioSource::Microphone)
        } else {
            None
        }
    }
}

/// Requests the pipeline refuses.
#[derive(Clone, Copy, Debug, PartialEq, Eq, Structural)]
pub enum PipelineError {
    /// Recording was asked to start while a recording runs.
    AlreadyRecording,
    /// Recording was asked to stop while none runs.
    NotRecording,
    /// No default device was found for an audio source.
    NoAudioSource,
    /// A captured stream reported no size.
    MissingStreamSize,
}

/// The text of each error.
pub open spec fn error_message(error: PipelineError) -> Seq<char> {
    match error {
        PipelineError::AlreadyRecording => "Already recording"@,
        PipelineError::NotRecording => "Not recording"@,
        PipelineError::NoAudioSource => "No desktop audio source found"@,
        PipelineError::MissingStreamSize => "stream is missing size"@,
    }
}

impl PipelineError {
    /// The text shown for this error.
    pub fn message(&self) -> (text: String)
        ensures
            text@ == error_message(*self),
    {
        match self {
            PipelineError::AlreadyRecording => String::from_str("Already recording"),
            PipelineError::NotRecording => String::from_str("Not recording"),
            PipelineError::NoAudioSource => String::from_str("No desktop audio source found"),
            PipelineError::MissingStreamSize => String::from_str("stream is missing size"),
        }
    }
}

/// What happened to the pipeline: a request of its user, the completion of
/// work it asked for, or a message on its bus.
#[derive(Clone, Copy, Debug, PartialEq, Eq, Structural)]
pub enum Event {
    /// Recording is requested.
    StartRecording,
    /// The recording branch was built, linked and started.
    RecordingBranchBuilt,
    /// Recording is requested to stop.
    StopRecording,
    /// An audio source is requested in the mix.
    LoadAudio(AudioSource),
    /// The branch of an audio source was built, linked and started.
    AudioBranchBuilt(AudioSource),
    /// An audio source is requested out of the mix.
    UnloadAudio(AudioSource),
    /// A new set of captured streams was linked into the compositor.
    StreamsReplaced,
    /// Bus: the pipeline finished a state change.
    AsyncDone,
    /// The compositor's output size, read after `ReadCompositorSize`.
    CompositorSize(StreamSize),
    /// Bus: a level meter reported the peaks of an audio source.
    Level(AudioSource),
    /// Bus: an element reported an error.
    BusError,
    /// Bus: any other message.
    OtherMessage,
}

/// What the pipeline does next.
#[derive(Clone, Copy, Debug, PartialEq, Eq, Structural)]
pub enum Action {
    /// The request is complete.
    Done,
    /// The request is refused with this error.
    Fail(PipelineError),
    /// Build the encoder and file sink after the tee and start them.
    BuildRecordingBranch,
    /// Stop and remove the elements of the recording branch.
    TearDownRecordingBranch,
    /// Look up the default device of the source, then build its branch.
    FindAudioDevice(AudioSource),
    /// Stop and remove the elements of the source's branch.
    TearDownAudioBranch(AudioSource),
    /// Tell observers that the stream size changed.
    NotifyStreamSize,
    /// Read the size the compositor negotiated on its output.
    ReadCompositorSize,
    /// Emit the peaks of the source to its observers, keep watching the bus.
    EmitPeak(AudioSource),
    /// Keep watching the bus.
    Continue,
    /// Stop watching the bus.
    Break,
}

/// What the pipeline's decisions depend on.
#[derive(Clone, Copy, Debug, PartialEq, Eq, Structural)]
pub struct PipelineState {
    /// Whether the recording branch is in place.
    pub recording: bool,
    /// Whether the desktop audio branch is in place.
    pub desktop_audio: bool,
    /// Whether the microphone branch is in place.
    pub microphone: bool,
    /// Size of the composited video, once known.
    pub stream_size: Option<StreamSize>,
}

/// Whether the branch of `source` is in place in `state`.
pub open spec fn has_audio_spec(state: PipelineState, source: AudioSource) -> bool {
    match source {
        AudioSource::DesktopAudio => state.desktop_audio,
        AudioSource::Microphone => state.microphone,
    }
}

/// `state` with the branch of `source` marked in place or not.
pub open spec fn with_audio(state: PipelineState, source: AudioSource, loaded: bool) -> PipelineState {
    match source {
        AudioSource::DesktopAudio => PipelineState { desktop_audio: loaded, ..state },
        AudioSource::Microphone => PipelineState { microphone: loaded, ..state },
    }
}

/// The pipeline's decision on `event` in `state`: the next state and the
/// action to take.
pub open spec fn transition(state: PipelineState, event: Event) -> (PipelineState, Action) {
    match event {
        Event::StartRecording => if state.recording {
            (state, Action::Fail(PipelineError::AlreadyRecording))
        } else {
            (state, Action::BuildRecordingBranch)
        },
        Event::RecordingBranchBuilt => (PipelineState { recording: true, ..state }, Action::Done),
        Event::StopRecording => if state.recording {
            (PipelineState { recording: false, ..state }, Action::TearDownRecordingBranch)
        } else {
            (state, Action::Fail(PipelineError::NotRecording))
        },
        Event::LoadAudio(source) => if has_audio_spec(state, source) {
            (state, Action::Done)
        } else {
            (state, Action::FindAudioDevice(source))
        },
        Event::AudioBranchBuilt(source) => (with_audio(state, source, true), Action::Done),
        Event::UnloadAudio(source) => (
            with_audio(state, source, false),
            Action::TearDownAudioBranch(source),
        ),
        Event::StreamsReplaced => (
            PipelineState { stream_size: None, ..state },
            Action::NotifyStreamSize,
        ),
        Event::AsyncDone => if state.stream_size is Some {
            (state, Action::Continue)
        } else {
            (state, Action::ReadCompositorSize)
        },
        Event::CompositorSize(size) => (
            PipelineState { stream_size: Some(size), ..state },
            Action::NotifyStreamSize,
        ),
        Event::Level(source) => (state, Action::EmitPeak(source)),
        Event::BusError => (state, Action::Break),
        Event::OtherMessage => (state, Action::Continue),
    }
}

impl PipelineState {
    /// A pipeline with no recording, no audio and no known stream size.
    pub fn new() -> (state: Self)
        ensures
            !state.recording,
            !state.desktop_audio,
            !state.microphone,
            state.stream_size is None,
    {
        PipelineState { recording: false, desktop_audio: false, microphone: false, stream_size: None }
    }

    /// Size of the composited video, once known.
    pub fn stream_size(&self) -> (size: Option<StreamSize>)
        ensures
            size == self.stream_size,
    {
        self.stream_size
    }

    /// Whether the branch of `source` is in place.
    pub fn has_audio(&self, source: AudioSource) -> (loaded: bool)
        ensures
            loaded == has_audio_spec(*self, source),
    {
        match source {
            AudioSource::DesktopAudio => self.desktop_audio,
            AudioSource::Microphone => self.microphone,
        }
    }

    /// Decides on `event`: moves to the next state and returns the action
    /// to take.
    pub fn step(&mut self, event: Event) -> (action: Action)
        ensures
            (*final(self), action) == transition(*old(self), event),
    {
        match event {
            Event::StartRecording => {
                if self.recording {
                    Action::Fail(PipelineError::AlreadyRecording)
                } else {
                    Action::BuildRecordingBranch
                }
            },
            Event::RecordingBranchBuilt => {
                self.recording = true;
                Action::Done
            },
            Event::StopRecording => {
                if self.recording {
                    self.recording = false;
                    Action::TearDownRecordingBranch
                } else {
                    Action::Fail(PipelineError::NotRecording)
                }
            },
            Event::LoadAudio(source) => {
                if self.has_audio(source) {
                    Action::Done
                } else {
                    Action::FindAudioDevice(source)
                }
            },
            Event::AudioBranchBuilt(source) => {
                self.set_audio(source, true);
                Action::Done
            },
            Event::UnloadAudio(source) => {
                self.set_audio(source, false);
                Action::TearDownAudioBranch(source)
            },
            Event::StreamsReplaced => {
                self.stream_size = None;
                Action::NotifyStreamSize
            },
            Event::AsyncDone => {
                if self.stream_size.is_some() {
                    Action::Continue
                } else {
                    Action::ReadCompositorSize
                }
            },
            Event::CompositorSize(size) => {
                self.stream_size = Some(size);
                Action::NotifyStreamSize
            },
            Event::Level(source) => Action::EmitPeak(source),
            Event::BusError => Action::Break,
            Event::OtherMessage => Action::Continue,
        }
    }

    fn set_audio(&mut self, source: AudioSource, loaded: bool)
        ensures
            *final(self) == with_audio(*old(self), source, loaded),
    {
        match source {
            AudioSource::DesktopAudio => self.desktop_audio = loaded,
            AudioSource::Microphone => self.microphone = loaded,
        }
    }
}

/// Bus messages of a level meter find their way back to the branch that
/// named it: the name given to each source's meter is read back as that
/// source, and the two meters have different names.
pub proof fn lemma_level_name_round_trip(source: AudioSource)
    ensures
        source_of_level_name(level_name_spec(source)) == Some(source),
{
    reveal_strlit("desktop-audio-level");
    reveal_strlit("microphone-level");
    assert(level_name_spec(AudioSource::DesktopAudio).len() != level_name_spec(
        AudioSource::Microphone,
    ).len());
}

/// Starting a recording is refused while one runs, and leaves the state as
/// it was; stopping is refused while none runs, likewise.
pub proof fn lemma_refusals_change_nothing(state: PipelineState)
    ensures
        state.recording ==> transition(state, Event::StartRecording) == (
            state,
            Action::Fail(PipelineError::AlreadyRecording),
        ),
        !state.recording ==> transition(state, Event::StopRecording) == (
            state,
            Action::Fail(PipelineError::NotRecording),
        ),
{
}

/// Stopping undoes starting: from a state without a recording, a start that
/// completes and the stop that follows tear down exactly the branch that was
/// built and return to the state they began in.
pub proof fn lemma_stop_undoes_start(state: PipelineState)
    requires
        !state.recording,
    ensures
        ({
            let (s1, a1) = transition(state, Event::StartRecording);
            let (s2, a2) = transition(s1, Event::RecordingBranchBuilt);
            let (s3, a3) = transition(s2, Event::StopRecording);
            &&& a1 == Action::BuildRecordingBranch
            &&& a2 == Action::Done
            &&& s2.recording
            &&& a3 == Action::TearDownRecordingBranch
            &&& s3 == state
        }),
{
}

/// Loading an audio source that is already in place does nothing and
/// succeeds.
pub proof fn lemma_load_audio_idempotent(state: PipelineState, source: AudioSource)
    ensures
        ({
            let (s1, _a1) = transition(state, Event::AudioBranchBuilt(source));
            transition(s1, Event::LoadAudio(source)) == (s1, Action::Done)
        }),
{
}

/// Unloading undoes loading: from a state without the source, a load that
/// completes and the unload that follows return to the state they began in.
/// Unloading a source that is not in place tears down nothing that is
/// recorded and succeeds.
pub proof fn lemma_unload_undoes_load(state: PipelineState, source: AudioSource)
    ensures
        !has_audio_spec(state, source) ==> ({
            let (s1, a1) = transition(state, Event::LoadAudio(source));
            let (s2, a2) = transition(s1, Event::AudioBranchBuilt(source));
            let (s3, a3) = transition(s2, Event::UnloadAudio(source));
            &&& a1 == Action::FindAudioDevice(source)
            &&& has_audio_spec(s2, source)
            &&& a2 == Action::Done
            &&& a3 == Action::TearDownAudioBranch(source)
            &&& s3 == state
        }),
        !has_audio_spec(state, source) ==> transition(state, Event::UnloadAudio(source)).0 == state,
{
}

/// The branches are independent: an event about one audio source changes
/// neither the other source, nor the recording, nor the stream size; an
/// event about the recording touches only the recording.
pub proof fn lemma_branches_independent(state: PipelineState, event: Event, other: AudioSource)
    ensures
        ({
            let next = transition(state, event).0;
            &&& (event matches Event::LoadAudio(s) && s != other) ==> has_audio_spec(next, other)
                == has_audio_spec(state, other)
            &&& (event matches Event::AudioBranchBuilt(s) && s != other) ==> has_audio_spec(
                next,
                other,
            ) == has_audio_spec(state, other)
            &&& (event matches Event::UnloadAudio(s) && s != other) ==> has_audio_spec(next, other)
                == has_audio_spec(state, other)
            &&& (event is LoadAudio || event is AudioBranchBuilt || event is UnloadAudio) ==> (
            next.recording == state.recording && next.stream_size == state.stream_size)
            &&& (event is StartRecording || event is RecordingBranchBuilt || event is StopRecording)
                ==> (next.desktop_audio == state.desktop_audio && next.microphone
                == state.microphone && next.stream_size == state.stream_size)
        }),
{
}

/// The compositor's size is read once: after it is known, later state
/// changes keep it without reading again, until a new set of streams is
/// linked, after which the next state change reads it afresh.
pub proof fn lemma_stream_size_read_once(state: PipelineState, size: StreamSize)
    ensures
        ({
            let (s1, a1) = transition(state, Event::CompositorSize(size));
            let (s2, a2) = transition(s1, Event::AsyncDone);
            let (s3, a3) = transition(s2, Event::StreamsReplaced);
            let (s4, a4) = transition(s3, Event::AsyncDone);
            &&& s1.stream_size == Some(size)
            &&& a1 == Action::NotifyStreamSize
            &&& s2 == s1
            &&& a2 == Action::Continue
            &&& s3.stream_size is None
            &&& a3 == Action::NotifyStreamSize
            &&& s4 == s3
            &&& a4 == Action::ReadCompositorSize
        }),
{
}

/// Watching the bus stops on an error message and on nothing else; bus
/// messages other than the compositor's size change no state.
pub proof fn lemma_bus_stops_only_on_error(state: PipelineState, event: Event)
    requires
        event is AsyncDone || event is Level || event is BusError || event is OtherMessage,
    ensures
        (transition(state, event).1 == Action::Break) <==> (event == Event::BusError),
        transition(state, event).0 == state,
        event matches Event::Level(source) ==> transition(state, event).1 == Action::EmitPeak(
            source,
        ),
        event == Event::OtherMessage ==> transition(state, event).1 == Action::Continue,
{
}

/// Each part of the state changes only on the events about it: the
/// recording only when its branch is built or it is stopped; an audio
/// source only when its own branch is built or unloaded; the stream size
/// only when new streams are linked or the compositor's size is learned.
/// Replacing the streams or learning their size keeps the recording and
/// both audio branches as they are.
pub proof fn lemma_each_part_changes_only_on_its_events(
    state: PipelineState,
    event: Event,
    source: AudioSource,
)
    ensures
        ({
            let next = transition(state, event).0;
            &&& !(event is RecordingBranchBuilt || event is StopRecording) ==> next.recording
                == state.recording
            &&& !(event == Event::AudioBranchBuilt(source) || event == Event::UnloadAudio(source))
                ==> has_audio_spec(next, source) == has_audio_spec(state, source)
            &&& !(event is StreamsReplaced || event is CompositorSize) ==> next.stream_size
                == state.stream_size
        }),
{
}

/// What each event does to the part of the state it is about: a built
/// recording branch is recording, a stop leaves none; a built audio branch
/// is in place and an unloaded one is not; linking new streams forgets the
/// stream size, learning it stores exactly the size learned.
pub proof fn lemma_event_effects(state: PipelineState, source: AudioSource, size: StreamSize)
    ensures
        transition(state, Event::RecordingBranchBuilt).0.recording,
        !transition(state, Event::StopRecording).0.recording,
        has_audio_spec(transition(state, Event::AudioBranchBuilt(source)).0, source),
        !has_audio_spec(transition(state, Event::UnloadAudio(source)).0, source),
        (transition(state, Event::StreamsReplaced).0.stream_size is None),
        transition(state, Event::CompositorSize(size)).0.stream_size == Some(size),
        transition(state, Event::StreamsReplaced).0 == (PipelineState {
            stream_size: None,
            ..state
        }),
        transition(state, Event::CompositorSize(size)).0 == (PipelineState {
            stream_size: Some(size),
            ..state
        }),
{
}

/// The action each event asks for. Only a start while recording and a stop
/// while not recording are refused; unloading is never refused, whether or
/// not the source is in place; a peak is emitted exactly for a level message
/// of that source; the bus is left only on an error; the compositor is read
/// only when the size is not known yet.
pub proof fn lemma_event_actions(
    state: PipelineState,
    event: Event,
    source: AudioSource,
    size: StreamSize,
)
    ensures
        ({
            let action = transition(state, event).1;
            &&& (action is Fail) <==> ((event is StartRecording && state.recording) || (
            event is StopRecording && !state.recording))
            &&& (action == Action::EmitPeak(source)) <==> (event == Event::Level(source))
            &&& (action == Action::Break) <==> (event == Event::BusError)
            &&& (action == Action::ReadCompositorSize) <==> (event is AsyncDone
                && state.stream_size is None)
        }),
        transition(state, Event::StartRecording).1 == (if state.recording {
            Action::Fail(PipelineError::AlreadyRecording)
        } else {
            Action::BuildRecordingBranch
        }),
        transition(state, Event::RecordingBranchBuilt).1 == Action::Done,
        transition(state, Event::StopRecording).1 == (if state.recording {
            Action::TearDownRecordingBranch
        } else {
            Action::Fail(PipelineError::NotRecording)
        }),
        transition(state, Event::LoadAudio(source)).1 == (if has_audio_spec(state, source) {
            Action::Done
        } else {
            Action::FindAudioDevice(source)
        }),
        transition(state, Event::AudioBranchBuilt(source)).1 == Action::Done,
        transition(state, Event::UnloadAudio(source)).1 == Action::TearDownAudioBranch(source),
        transition(state, Event::StreamsReplaced).1 == Action::NotifyStreamSize,
        transition(state, Event::CompositorSize(size)).1 == Action::NotifyStreamSize,
        state.stream_size is Some ==> transition(state, Event::AsyncDone).1 == Action::Continue,
        transition(state, Event::OtherMessage) == (state, Action::Continue),
        transition(state, Event::BusError) == (state, Action::Break),
{
}

} // verus!
