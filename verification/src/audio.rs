use vstd::prelude::*;
use crate::message::File;

verus! {

/// A message to an audio player, without the numbers that some of them carry
/// (a volume or a position), which the caller keeps beside it.
#[derive(Clone, Debug, PartialEq, Eq)]
pub enum Audio {
    Load,
    Play(String),
    Stop,
    TogglePlayPause,
    Pause,
    Prev,
    Next,
    RandomNextTrack,
    Duration,
    Volume,
    SliderPositionChanged,
    UpdatePlaybackPosition,
    PlaybackTick,
    Test,
    ShowFiles,
}

/// A message to the application: one for the audio player or one for the file list.
#[derive(Clone, Debug)]
pub enum Message {
    Audio(Audio),
    File(File),
}

/// What the player logic reads of the audio output: whether there is one, and
/// whether it is paused.
#[derive(Clone, Copy, Debug, PartialEq, Eq, Structural)]
pub enum SinkState {
    Absent,
    Running,
    Paused,
}

/// What an audio player does in answer to a message.
#[derive(Clone, Debug, PartialEq, Eq)]
pub enum PlayerAction {
    /// Nothing.
    Nothing,
    /// Open the built-in test song on a new output, replacing any output there is.
    LoadTestSong,
    /// Open the default song on a new output (asked only where there is no output yet).
    LoadDefaultSong,
    /// Stop the output, if there is one, and set the position back to zero.
    StopAndRewind,
    /// Open the given song on a new output and report it; when `replay` holds, also send
    /// `Play` with it again (the player does; the controller drops that message).
    PlayFile { file: String, replay: bool },
    /// Report the song that was asked for, without playing it.
    ReportPlay(String),
    /// Store the new volume; also set it on the output when `apply_to_sink` holds.
    SetVolume { apply_to_sink: bool },
    /// Store the new volume (the output is left as it is).
    StoreVolume,
    /// Resume the paused output.
    Resume,
    /// Pause the running output.
    Pause,
    /// Set the position from the output's playback position.
    SyncPosition,
    /// Set the position to zero.
    ResetPosition,
    /// Store the output's playback position as the volume.
    PositionAsVolume,
    /// Report the length of the loaded song.
    ReportDuration,
    /// Report that the test message arrived.
    ReportTest,
    /// Replace the file list by the names in the current directory.
    ListFiles,
}

/// Errors of the audio player.
#[derive(Clone, Copy, Debug, PartialEq, Eq, Structural)]
pub enum AudioError {
    NoAudioPlaying,
}

/// Play/pause: resume a paused output, pause a running one, nothing without output.
pub open spec fn toggle_spec(sink: SinkState) -> PlayerAction {
    match sink {
        SinkState::Absent => PlayerAction::Nothing,
        SinkState::Paused => PlayerAction::Resume,
        SinkState::Running => PlayerAction::Pause,
    }
}

/// The answer of the player of the application (`AudioState`) to a message.
pub open spec fn audio_state_spec(event: Audio, sink: SinkState) -> PlayerAction {
    match event {
        Audio::Load => PlayerAction::LoadTestSong,
        Audio::Stop => PlayerAction::StopAndRewind,
        Audio::Play(file) => PlayerAction::PlayFile { file, replay: true },
        Audio::Volume => PlayerAction::SetVolume { apply_to_sink: sink != SinkState::Absent },
        Audio::TogglePlayPause => toggle_spec(sink),
        Audio::PlaybackTick => position_spec(sink),
        Audio::Duration => PlayerAction::ReportDuration,
        _ => PlayerAction::Nothing,
    }
}

/// Refreshing the position: read it from the output, or zero without output.
pub open spec fn position_spec(sink: SinkState) -> PlayerAction {
    if sink == SinkState::Absent {
        PlayerAction::ResetPosition
    } else {
        PlayerAction::SyncPosition
    }
}

/// The answer of the application's controller, which handles a few audio messages
/// itself and hands the others to the player.
pub open spec fn controller_spec(event: Message, sink: SinkState) -> PlayerAction {
    match event {
        Message::Audio(Audio::Test) => PlayerAction::ReportTest,
        Message::Audio(Audio::PlaybackTick) => position_spec(sink),
        Message::Audio(Audio::Duration) => PlayerAction::ReportDuration,
        Message::Audio(Audio::Play(file)) => PlayerAction::PlayFile { file, replay: false },
        Message::Audio(e) => audio_state_spec(e, sink),
        Message::File(_) => PlayerAction::Nothing,
    }
}

/// Loading where a song is only opened when there is no output yet.
pub open spec fn load_once_spec(sink: SinkState) -> PlayerAction {
    if sink == SinkState::Absent {
        PlayerAction::LoadDefaultSong
    } else {
        PlayerAction::Nothing
    }
}

/// A playback tick of the playback controllers: the output's position is stored as
/// the volume, and nothing happens without output.
pub open spec fn position_as_volume_spec(sink: SinkState) -> PlayerAction {
    if sink == SinkState::Absent {
        PlayerAction::Nothing
    } else {
        PlayerAction::PositionAsVolume
    }
}

/// The answer of the playback controller with a file list (`AudioPlaybackController`).
pub open spec fn playback_controller_spec(event: Audio, sink: SinkState) -> PlayerAction {
    match event {
        Audio::Load => load_once_spec(sink),
        Audio::Play(file) => PlayerAction::ReportPlay(file),
        Audio::TogglePlayPause => toggle_spec(sink),
        Audio::SliderPositionChanged => PlayerAction::StoreVolume,
        Audio::PlaybackTick => position_as_volume_spec(sink),
        Audio::ShowFiles => PlayerAction::ListFiles,
        _ => PlayerAction::Nothing,
    }
}

/// The answer of the playback controller with a button row.
pub open spec fn button_controller_spec(event: Audio, sink: SinkState) -> PlayerAction {
    match event {
        Audio::Load => load_once_spec(sink),
        Audio::TogglePlayPause => toggle_spec(sink),
        Audio::SliderPositionChanged => PlayerAction::StoreVolume,
        Audio::PlaybackTick => position_as_volume_spec(sink),
        _ => PlayerAction::Nothing,
    }
}

/// The answer of the minimal player, which only loads and toggles.
pub open spec fn minimal_player_spec(event: Audio, sink: SinkState) -> PlayerAction {
    match event {
        Audio::Load => load_once_spec(sink),
        Audio::TogglePlayPause => toggle_spec(sink),
        _ => PlayerAction::Nothing,
    }
}

/// Whether the output is paused after the player carries out `action`.
pub open spec fn paused_after(action: PlayerAction, sink: SinkState) -> SinkState {
    match action {
        PlayerAction::Resume => SinkState::Running,
        PlayerAction::Pause => SinkState::Paused,
        _ => sink,
    }
}

/// Play/pause on the current output.
pub fn toggle_action(sink: SinkState) -> (a: PlayerAction)
    ensures
        a == toggle_spec(sink),
{
    match sink {
        SinkState::Absent => PlayerAction::Nothing,
        SinkState::Paused => PlayerAction::Resume,
        SinkState::Running => PlayerAction::Pause,
    }
}

/// Refreshing the position on a playback tick (`update_playback_position`): read it
/// from the output, or set it to zero without output.
pub fn update_playback_position(sink: SinkState) -> (a: PlayerAction)
    ensures
        a == position_spec(sink),
{
    match sink {
        SinkState::Absent => PlayerAction::ResetPosition,
        _ => PlayerAction::SyncPosition,
    }
}

/// Loading in the players that keep their first output (`load_audio`): a song is
/// opened only where there is no output yet.
pub fn load_once(sink: SinkState) -> (a: PlayerAction)
    ensures
        a == load_once_spec(sink),
{
    match sink {
        SinkState::Absent => PlayerAction::LoadDefaultSong,
        _ => PlayerAction::Nothing,
    }
}

/// A playback tick of the playback controllers (`update_playback_position`): the
/// output's position is stored as the volume; nothing happens without output.
pub fn position_as_volume(sink: SinkState) -> (a: PlayerAction)
    ensures
        a == position_as_volume_spec(sink),
{
    match sink {
        SinkState::Absent => PlayerAction::Nothing,
        _ => PlayerAction::PositionAsVolume,
    }
}

/// The application's audio player (`AudioState::update`): what it does with a message.
pub fn audio_state_update(event: Audio, sink: SinkState) -> (a: PlayerAction)
    ensures
        a == audio_state_spec(event, sink),
{
    match event {
        Audio::Load => PlayerAction::LoadTestSong,
        Audio::Stop => PlayerAction::StopAndRewind,
        Audio::Play(file) => PlayerAction::PlayFile { file, replay: true },
        Audio::Volume => {
            let apply_to_sink = match sink {
                SinkState::Absent => false,
                _ => true,
            };
            PlayerAction::SetVolume { apply_to_sink }
        },
        Audio::TogglePlayPause => toggle_action(sink),
        Audio::PlaybackTick => update_playback_position(sink),
        Audio::Duration => PlayerAction::ReportDuration,
        _ => PlayerAction::Nothing,
    }
}

/// The application's controller (`Controller::update`): what it does with a message.
pub fn controller_update(event: Message, sink: SinkState) -> (a: PlayerAction)
    ensures
        a == controller_spec(event, sink),
{
    match event {
        Message::Audio(Audio::Test) => PlayerAction::ReportTest,
        Message::Audio(Audio::PlaybackTick) => update_playback_position(sink),
        Message::Audio(Audio::Duration) => PlayerAction::ReportDuration,
        Message::Audio(Audio::Play(file)) => PlayerAction::PlayFile { file, replay: false },
        Message::Audio(e) => audio_state_update(e, sink),
        Message::File(_) => PlayerAction::Nothing,
    }
}

/// The playback controller with a file list (`AudioPlaybackController::update`).
pub fn playback_controller_update(event: Audio, sink: SinkState) -> (a: PlayerAction)
    ensures
        a == playback_controller_spec(event, sink),
{
    match event {
        Audio::Load => load_once(sink),
        Audio::Play(file) => PlayerAction::ReportPlay(file),
        Audio::TogglePlayPause => toggle_action(sink),
        Audio::SliderPositionChanged => PlayerAction::StoreVolume,
        Audio::PlaybackTick => position_as_volume(sink),
        Audio::ShowFiles => PlayerAction::ListFiles,
        _ => PlayerAction::Nothing,
    }
}

/// The playback controller with a button row (`AudioPlaybackController::update`).
pub fn button_controller_update(event: Audio, sink: SinkState) -> (a: PlayerAction)
    ensures
        a == button_controller_spec(event, sink),
{
    match event {
        Audio::Load => load_once(sink),
        Audio::TogglePlayPause => toggle_action(sink),
        Audio::SliderPositionChanged => PlayerAction::StoreVolume,
        Audio::PlaybackTick => position_as_volume(sink),
        _ => PlayerAction::Nothing,
    }
}

/// The minimal player, which only loads and toggles (`AudioState::update`).
pub fn minimal_player_update(event: Audio, sink: SinkState) -> (a: PlayerAction)
    ensures
        a == minimal_player_spec(event, sink),
{
    match event {
        Audio::Load => load_once(sink),
        Audio::TogglePlayPause => toggle_action(sink),
        _ => PlayerAction::Nothing,
    }
}

/// Stopping: it succeeds exactly when there is an output to stop.
pub fn stop_audio(sink: SinkState) -> (r: Result<(), AudioError>)
    ensures
        r is Ok <==> sink != SinkState::Absent,
        r is Err ==> r == Err::<(), AudioError>(AudioError::NoAudioPlaying),
{
    match sink {
        SinkState::Absent => Err(AudioError::NoAudioPlaying),
        _ => Ok(()),
    }
}

/// Seconds played, from the output's position; zero without output.
pub fn song_progress(position_secs: Option<u64>) -> (r: u64)
    ensures
        r == progress_spec(position_secs, 0),
{
    match position_secs {
        Some(s) => s,
        None => 0,
    }
}

/// Seconds played as the playback controller reports it: from the output's
/// position, or a placeholder of five seconds without output.
pub fn playback_progress(position_secs: Option<u64>) -> (r: u64)
    ensures
        r == progress_spec(position_secs, 5),
{
    match position_secs {
        Some(s) => s,
        None => 5,
    }
}

/// Playing: resume the output where there is one.
pub open spec fn play_spec(sink: SinkState) -> PlayerAction {
    if sink == SinkState::Absent { PlayerAction::Nothing } else { PlayerAction::Resume }
}

/// Pausing: pause the output where there is one.
pub open spec fn pause_spec(sink: SinkState) -> PlayerAction {
    if sink == SinkState::Absent { PlayerAction::Nothing } else { PlayerAction::Pause }
}

/// Seconds played: the output's position, or `absent` without output.
pub open spec fn progress_spec(position_secs: Option<u64>, absent: u64) -> u64 {
    match position_secs {
        Some(s) => s,
        None => absent,
    }
}

/// Playing (`play_audio`): resume the output where there is one, and then set the volume.
pub fn play_audio(sink: SinkState) -> (a: PlayerAction)
    ensures
        a == play_spec(sink),
{
    match sink {
        SinkState::Absent => PlayerAction::Nothing,
        _ => PlayerAction::Resume,
    }
}

/// Pausing (`pause_audio`): pause the output where there is one.
pub fn pause_audio(sink: SinkState) -> (a: PlayerAction)
    ensures
        a == pause_spec(sink),
{
    match sink {
        SinkState::Absent => PlayerAction::Nothing,
        _ => PlayerAction::Pause,
    }
}

/// Every player's play/pause flips the output: it resumes a paused output, pauses a
/// running one, and does nothing without output.
pub proof fn lemma_every_player_toggles(sink: SinkState)
    ensures
        ({
            let answers = seq![
                audio_state_spec(Audio::TogglePlayPause, sink),
                controller_spec(Message::Audio(Audio::TogglePlayPause), sink),
                playback_controller_spec(Audio::TogglePlayPause, sink),
                button_controller_spec(Audio::TogglePlayPause, sink),
                minimal_player_spec(Audio::TogglePlayPause, sink),
            ];
            forall|k: int| 0 <= k < 5 ==> {
                &&& sink == SinkState::Paused ==> #[trigger] answers[k] == PlayerAction::Resume
                &&& sink == SinkState::Running ==> answers[k] == PlayerAction::Pause
                &&& sink == SinkState::Absent ==> answers[k] == PlayerAction::Nothing
            }
        }),
{
}

/// On the application's player a new volume always replaces the stored one, and it
/// reaches the output exactly when there is an output, paused or running.
pub proof fn lemma_volume_reaches_output(sink: SinkState)
    ensures
        audio_state_spec(Audio::Volume, sink) is SetVolume,
        audio_state_spec(Audio::Volume, sink)->apply_to_sink <==> (sink == SinkState::Running || sink
            == SinkState::Paused),
{
}

/// What the application's player does with each message: loading always opens the test
/// song, stopping always stops and rewinds, playing a file opens it and sends `Play`
/// again, a tick reads the position exactly when there is an output and resets it
/// otherwise, the duration is reported, and the remaining messages do nothing.
pub proof fn lemma_player_answers(file: String, sink: SinkState)
    ensures
        audio_state_spec(Audio::Load, sink) == PlayerAction::LoadTestSong,
        audio_state_spec(Audio::Stop, sink) == PlayerAction::StopAndRewind,
        audio_state_spec(Audio::Play(file), sink) == (PlayerAction::PlayFile { file, replay: true }),
        (audio_state_spec(Audio::PlaybackTick, sink) == PlayerAction::SyncPosition) <==> sink
            != SinkState::Absent,
        (audio_state_spec(Audio::PlaybackTick, sink) == PlayerAction::ResetPosition) <==> sink
            == SinkState::Absent,
        audio_state_spec(Audio::Duration, sink) == PlayerAction::ReportDuration,
        audio_state_spec(Audio::Pause, sink) == PlayerAction::Nothing,
        audio_state_spec(Audio::Prev, sink) == PlayerAction::Nothing,
        audio_state_spec(Audio::Next, sink) == PlayerAction::Nothing,
        audio_state_spec(Audio::RandomNextTrack, sink) == PlayerAction::Nothing,
        audio_state_spec(Audio::SliderPositionChanged, sink) == PlayerAction::Nothing,
        audio_state_spec(Audio::UpdatePlaybackPosition, sink) == PlayerAction::Nothing,
        audio_state_spec(Audio::Test, sink) == PlayerAction::Nothing,
        audio_state_spec(Audio::ShowFiles, sink) == PlayerAction::Nothing,
{
}

/// What the playback controllers and the minimal player do: a load opens the default
/// song exactly when there is no output; the slider stores the volume; a tick stores the
/// position as the volume exactly when there is an output; the file-list controller also
/// reports a `Play` and lists the files on `ShowFiles`; nothing else happens.
pub proof fn lemma_controllers_answer(event: Audio, sink: SinkState)
    ensures
        (playback_controller_spec(Audio::Load, sink) == PlayerAction::LoadDefaultSong) <==> sink
            == SinkState::Absent,
        (button_controller_spec(Audio::Load, sink) == PlayerAction::LoadDefaultSong) <==> sink
            == SinkState::Absent,
        (minimal_player_spec(Audio::Load, sink) == PlayerAction::LoadDefaultSong) <==> sink
            == SinkState::Absent,
        playback_controller_spec(Audio::SliderPositionChanged, sink) == PlayerAction::StoreVolume,
        button_controller_spec(Audio::SliderPositionChanged, sink) == PlayerAction::StoreVolume,
        (playback_controller_spec(Audio::PlaybackTick, sink) == PlayerAction::PositionAsVolume) <==> sink
            != SinkState::Absent,
        (button_controller_spec(Audio::PlaybackTick, sink) == PlayerAction::PositionAsVolume) <==> sink
            != SinkState::Absent,
        playback_controller_spec(Audio::ShowFiles, sink) == PlayerAction::ListFiles,
        event matches Audio::Play(f) ==> playback_controller_spec(event, sink) == PlayerAction::ReportPlay(f),
        (event == Audio::Stop || event == Audio::Pause || event == Audio::Prev || event == Audio::Next
            || event == Audio::RandomNextTrack || event == Audio::Duration || event == Audio::Volume
            || event == Audio::UpdatePlaybackPosition || event == Audio::Test) ==> {
            &&& playback_controller_spec(event, sink) == PlayerAction::Nothing
            &&& button_controller_spec(event, sink) == PlayerAction::Nothing
            &&& minimal_player_spec(event, sink) == PlayerAction::Nothing
        },
        (event == Audio::ShowFiles || event is Play) ==> button_controller_spec(event, sink)
            == PlayerAction::Nothing,
        !(event == Audio::Load || event == Audio::TogglePlayPause) ==> minimal_player_spec(event, sink)
            == PlayerAction::Nothing,
{
}

/// `play_audio` and `pause_audio` act exactly when there is an output, resuming and
/// pausing it; progress is the output's position whenever there is one.
pub proof fn lemma_play_pause_progress(sink: SinkState, position_secs: Option<u64>, absent: u64)
    ensures
        (play_spec(sink) == PlayerAction::Resume) <==> sink != SinkState::Absent,
        (play_spec(sink) == PlayerAction::Nothing) <==> sink == SinkState::Absent,
        (pause_spec(sink) == PlayerAction::Pause) <==> sink != SinkState::Absent,
        (pause_spec(sink) == PlayerAction::Nothing) <==> sink == SinkState::Absent,
        position_secs matches Some(p) ==> progress_spec(position_secs, absent) == p,
        position_secs is None ==> progress_spec(position_secs, absent) == absent,
{
}

/// Toggling play/pause on an output flips whether it is paused, and toggling
/// twice leaves it as it was.
pub proof fn lemma_toggle_flips(sink: SinkState)
    requires
        sink != SinkState::Absent,
    ensures
        paused_after(toggle_spec(sink), sink) != sink,
        paused_after(toggle_spec(paused_after(toggle_spec(sink), sink)), paused_after(toggle_spec(sink), sink)) == sink,
{
}

/// Without an output, no player and no controller does anything on play/pause.
pub proof fn lemma_toggle_without_output(sink: SinkState)
    requires
        sink == SinkState::Absent,
    ensures
        audio_state_spec(Audio::TogglePlayPause, sink) == PlayerAction::Nothing,
        controller_spec(Message::Audio(Audio::TogglePlayPause), sink) == PlayerAction::Nothing,
        playback_controller_spec(Audio::TogglePlayPause, sink) == PlayerAction::Nothing,
        button_controller_spec(Audio::TogglePlayPause, sink) == PlayerAction::Nothing,
        minimal_player_spec(Audio::TogglePlayPause, sink) == PlayerAction::Nothing,
{
}

/// The application's controller answers an audio message as the player does, except that
/// it reports `Test` itself and does not send `Play` again; it does nothing with a file
/// message.
pub proof fn lemma_controller_defers_to_player(event: Audio, file: File, sink: SinkState)
    ensures
        event != Audio::Test && !(event is Play) ==> controller_spec(Message::Audio(event), sink)
            == audio_state_spec(event, sink),
        event == Audio::Test ==> controller_spec(Message::Audio(event), sink) == PlayerAction::ReportTest,
        event matches Audio::Play(f) ==> controller_spec(Message::Audio(event), sink) == (
        PlayerAction::PlayFile { file: f, replay: false })
            && audio_state_spec(event, sink) == (PlayerAction::PlayFile { file: f, replay: true }),
        controller_spec(Message::File(file), sink) == PlayerAction::Nothing,
{
}

/// The playback controllers and the minimal player never open a second output: a load
/// with an output present does nothing.
pub proof fn lemma_load_keeps_output(sink: SinkState)
    requires
        sink != SinkState::Absent,
    ensures
        playback_controller_spec(Audio::Load, sink) == PlayerAction::Nothing,
        button_controller_spec(Audio::Load, sink) == PlayerAction::Nothing,
        minimal_player_spec(Audio::Load, sink) == PlayerAction::Nothing,
{
}

} // verus!
