use kooha::layout::{offsets_fit, stream_offsets, StreamSize};
use kooha::pipeline::{Action, AudioSource, Event, PipelineError, PipelineState};
use kooha::utils::{file_uri, ideal_thread_count, is_experimental_mode, MAX_THREAD_COUNT, MIN_THREAD_COUNT};

#[test]
fn thread_count_is_clamped() {
    assert_eq!(ideal_thread_count(0), MIN_THREAD_COUNT);
    assert_eq!(ideal_thread_count(1), 1);
    assert_eq!(ideal_thread_count(8), 8);
    assert_eq!(ideal_thread_count(64), 64);
    assert_eq!(ideal_thread_count(65), MAX_THREAD_COUNT);
    assert_eq!(ideal_thread_count(u32::MAX), 64);
}

#[test]
fn thread_count_is_monotone() {
    let mut last = ideal_thread_count(0);
    for n in 1..200u32 {
        let c = ideal_thread_count(n);
        assert!(c >= last);
        last = c;
    }
}

#[test]
fn experimental_mode_only_for_one() {
    assert!(is_experimental_mode(Some("1")));
    assert!(!is_experimental_mode(Some("0")));
    assert!(!is_experimental_mode(Some("11")));
    assert!(!is_experimental_mode(Some("")));
    assert!(!is_experimental_mode(Some("true")));
    assert!(!is_experimental_mode(None));
}

#[test]
fn file_uri_prefixes_scheme() {
    assert_eq!(file_uri("/home/user/Videos/a.webm"), "file:///home/user/Videos/a.webm");
    assert_eq!(file_uri(""), "file://");
}

#[test]
fn stream_size_accessors() {
    let size = StreamSize::new(1920, 1080);
    assert_eq!(size.width(), 1920);
    assert_eq!(size.height(), 1080);
}

#[test]
fn streams_are_placed_side_by_side() {
    let widths = vec![Some(1920), Some(1280), Some(800)];
    assert!(offsets_fit(&widths));
    let layout = stream_offsets(&widths);
    assert_eq!(layout.offsets, vec![0, 1920, 3200]);
    assert_eq!(layout.missing_size, None);
}

#[test]
fn placement_stops_at_stream_without_size() {
    let widths = vec![Some(1920), None, Some(800)];
    assert!(offsets_fit(&widths));
    let layout = stream_offsets(&widths);
    assert_eq!(layout.offsets, vec![0, 1920]);
    assert_eq!(layout.missing_size, Some(1));
}

#[test]
fn first_stream_without_size() {
    let widths = vec![None, Some(5)];
    let layout = stream_offsets(&widths);
    assert_eq!(layout.offsets, vec![0]);
    assert_eq!(layout.missing_size, Some(0));
}

#[test]
fn no_streams_no_offsets() {
    let widths: Vec<Option<i32>> = Vec::new();
    assert!(offsets_fit(&widths));
    let layout = stream_offsets(&widths);
    assert!(layout.offsets.is_empty());
    assert_eq!(layout.missing_size, None);
}

#[test]
fn offsets_that_overflow_do_not_fit() {
    assert!(!offsets_fit(&vec![Some(i32::MAX), Some(1)]));
    assert!(!offsets_fit(&vec![Some(i32::MIN), Some(-1)]));
    // The total after the last stream is computed too.
    assert!(!offsets_fit(&vec![Some(i32::MAX), Some(1), None]));
    // Widths after a stream without size are never added.
    assert!(offsets_fit(&vec![Some(i32::MAX), None, Some(1)]));
    assert!(offsets_fit(&vec![Some(i32::MAX), Some(-1), Some(1)]));
}

#[test]
fn start_and_stop_recording() {
    let mut state = PipelineState::new();
    assert_eq!(state.step(Event::StopRecording), Action::Fail(PipelineError::NotRecording));
    assert_eq!(state.step(Event::StartRecording), Action::BuildRecordingBranch);
    assert!(!state.recording);
    assert_eq!(state.step(Event::RecordingBranchBuilt), Action::Done);
    assert!(state.recording);
    assert_eq!(state.step(Event::StartRecording), Action::Fail(PipelineError::AlreadyRecording));
    assert!(state.recording);
    assert_eq!(state.step(Event::StopRecording), Action::TearDownRecordingBranch);
    assert_eq!(state, PipelineState::new());
    assert_eq!(state.step(Event::StopRecording), Action::Fail(PipelineError::NotRecording));
}

#[test]
fn audio_sources_load_and_unload() {
    let mut state = PipelineState::new();
    let mic = AudioSource::Microphone;
    let desk = AudioSource::DesktopAudio;
    assert_eq!(state.step(Event::LoadAudio(mic)), Action::FindAudioDevice(mic));
    assert!(!state.has_audio(mic));
    assert_eq!(state.step(Event::AudioBranchBuilt(mic)), Action::Done);
    assert!(state.has_audio(mic));
    assert!(!state.has_audio(desk));
    assert_eq!(state.step(Event::LoadAudio(mic)), Action::Done);
    assert_eq!(state.step(Event::LoadAudio(desk)), Action::FindAudioDevice(desk));
    assert_eq!(state.step(Event::UnloadAudio(mic)), Action::TearDownAudioBranch(mic));
    assert!(!state.has_audio(mic));
    assert_eq!(state.step(Event::UnloadAudio(mic)), Action::TearDownAudioBranch(mic));
    assert_eq!(state, PipelineState::new());
}

#[test]
fn stream_size_is_read_once_per_stream_set() {
    let mut state = PipelineState::new();
    assert_eq!(state.step(Event::AsyncDone), Action::ReadCompositorSize);
    let size = StreamSize::new(3200, 1080);
    assert_eq!(state.step(Event::CompositorSize(size)), Action::NotifyStreamSize);
    assert_eq!(state.stream_size(), Some(size));
    assert_eq!(state.step(Event::AsyncDone), Action::Continue);
    assert_eq!(state.step(Event::StreamsReplaced), Action::NotifyStreamSize);
    assert_eq!(state.stream_size(), None);
    assert_eq!(state.step(Event::AsyncDone), Action::ReadCompositorSize);
}

#[test]
fn bus_messages() {
    let mut state = PipelineState::new();
    assert_eq!(
        state.step(Event::Level(AudioSource::DesktopAudio)),
        Action::EmitPeak(AudioSource::DesktopAudio)
    );
    assert_eq!(state.step(Event::OtherMessage), Action::Continue);
    assert_eq!(state.step(Event::BusError), Action::Break);
    assert_eq!(state, PipelineState::new());
}

#[test]
fn level_names_route_back() {
    for source in [AudioSource::DesktopAudio, AudioSource::Microphone] {
        assert_eq!(AudioSource::from_level_name(source.level_name()), Some(source));
    }
    assert_eq!(AudioSource::DesktopAudio.level_name(), "desktop-audio-level");
    assert_eq!(AudioSource::Microphone.level_name(), "microphone-level");
    assert_eq!(AudioSource::from_level_name("level"), None);
    assert_eq!(AudioSource::from_level_name(""), None);
}

#[test]
fn error_messages() {
    assert_eq!(PipelineError::AlreadyRecording.message(), "Already recording");
    assert_eq!(PipelineError::NotRecording.message(), "Not recording");
    assert_eq!(PipelineError::NoAudioSource.message(), "No desktop audio source found");
    assert_eq!(PipelineError::MissingStreamSize.message(), "stream is missing size");
}

#[test]
fn quit_only_when_safe() {
    assert!(kooha::utils::may_quit(None));
    assert!(kooha::utils::may_quit(Some(true)));
    assert!(!kooha::utils::may_quit(Some(false)));
}
