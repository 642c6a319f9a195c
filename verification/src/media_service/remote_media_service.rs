//! The client of the player's HTTP control protocol.
//!
//! Every operation is a short conversation with the player: commands are
//! sent, its status is fetched, time is let pass.  The client decides what
//! comes next; the caller sends, fetches and sleeps.  Each [`Step`] names
//! what the caller does now and carries what it hands the outcome to.
use crate::errors::HomeRadioError;
use crate::text::{decimal, format_u16, str_eq};
use vstd::prelude::*;
use vstd::string::*;

verus! {

/// How long the caller sleeps between two polls for the start of playback.
pub const POLL_INTERVAL_MILLIS: u64 = 500;

/// How long the caller sleeps once playback has started, before the volume
/// is set.
pub const SETTLE_DELAY_MILLIS: u64 = 1000;

/// A command of the control protocol.
#[derive(Clone, Debug, PartialEq, Eq)]
pub enum Command {
    ClearPlaylist,
    Play(String),
    Stop,
    SetVolume(u16),
}

/// A [`Command`] as contracts see it.
pub enum CommandView {
    ClearPlaylist,
    Play(Seq<char>),
    Stop,
    SetVolume(u16),
}

impl View for Command {
    type V = CommandView;

    open spec fn view(&self) -> CommandView {
        match self {
            Command::ClearPlaylist => CommandView::ClearPlaylist,
            Command::Play(url) => CommandView::Play(url@),
            Command::Stop => CommandView::Stop,
            Command::SetVolume(v) => CommandView::SetVolume(*v),
        }
    }
}

impl CommandView {
    /// The query of the request that carries the command: `command` first,
    /// then what the command takes.
    pub open spec fn query(self) -> Seq<(Seq<char>, Seq<char>)> {
        match self {
            CommandView::ClearPlaylist => seq![("command"@, "pl_empty"@)],
            CommandView::Play(url) => seq![
                ("command"@, "in_play"@),
                ("input"@, url),
                ("option"@, "novideo"@),
            ],
            CommandView::Stop => seq![("command"@, "pl_stop"@)],
            CommandView::SetVolume(v) => seq![("command"@, "volume"@), ("val"@, decimal(v as nat))],
        }
    }
}

/// The views of the pairs of a query, in order.
pub open spec fn pair_views(pairs: Seq<(String, String)>) -> Seq<(Seq<char>, Seq<char>)> {
    Seq::new(pairs.len(), |i: int| (pairs[i].0@, pairs[i].1@))
}

fn pair(key: &str, value: &str) -> (r: (String, String))
    ensures
        r.0@ == key@,
        r.1@ == value@,
{
    (String::from_str(key), String::from_str(value))
}

impl Command {
    /// The query of the request that carries the command.
    pub fn query(&self) -> (r: Vec<(String, String)>)
        ensures
            pair_views(r@) == self@.query(),
    {
        let mut q: Vec<(String, String)> = Vec::new();
        match self {
            Command::ClearPlaylist => {
                q.push(pair("command", "pl_empty"));
            },
            Command::Play(url) => {
                q.push(pair("command", "in_play"));
                q.push(pair("input", url.as_str()));
                q.push(pair("option", "novideo"));
            },
            Command::Stop => {
                q.push(pair("command", "pl_stop"));
            },
            Command::SetVolume(v) => {
                let val = format_u16(*v);
                q.push(pair("command", "volume"));
                q.push(pair("val", val.as_str()));
            },
        }
        q
    }
}

/// What the player says of itself.
#[derive(Clone, Debug, PartialEq, Eq)]
pub struct VlcStatus {
    pub state: String,
}

impl View for VlcStatus {
    type V = Seq<char>;

    open spec fn view(&self) -> Seq<char> {
        self.state@
    }
}

/// The audio filters that the player's status lists.
#[derive(Clone, Debug, PartialEq, Eq)]
pub struct Audiofilters {
    pub filter_0: String,
}

/// What the player's status says of the stream: its meta data and, while
/// something plays, its first elementary stream.
#[derive(Clone, Debug, PartialEq, Eq)]
pub struct Category {
    pub meta: Meta,
    pub stream_0: Option<Stream0>,
}

/// The meta data of the stream.
#[derive(Clone, Debug, PartialEq, Eq)]
pub struct Meta {
    pub filename: String,
}

/// The first elementary stream, in the words of the player.
#[derive(Clone, Debug, PartialEq, Eq)]
pub struct Stream0 {
    pub bitrate: String,
    pub codec: String,
    pub bits_pro_sample: String,
    pub abtastrate: String,
    pub typ: String,
    pub kan_le: String,
}

/// The video effects that the player's status lists.
#[derive(Clone, Copy, Debug, PartialEq, Eq)]
pub struct Videoeffects {
    pub hue: i64,
    pub saturation: i64,
    pub contrast: i64,
    pub brightness: i64,
    pub gamma: i64,
}

/// What came back when the status was fetched, as contracts see it.
pub open spec fn status_view(outcome: Result<VlcStatus, HomeRadioError>) -> Result<
    Seq<char>,
    HomeRadioError,
> {
    match outcome {
        Ok(status) => Ok(status@),
        Err(e) => Err(e),
    }
}

/// Where a conversation stands while a command is on its way.
#[derive(Clone, Debug, PartialEq, Eq)]
pub enum AfterSend {
    /// The playlist is being cleared; playback of the link at this volume is
    /// to be asked for next.
    ThenPlay { url: String, volume: u16 },
    /// Playback was asked for; the status is to be looked at next.
    ThenCheck { volume: u16 },
    /// The playlist is being cleared; the player is to be stopped next.
    ThenStop,
    /// The command on its way is the last of the conversation.
    Last,
}

/// An [`AfterSend`] as contracts see it.
pub enum AfterSendView {
    ThenPlay { url: Seq<char>, volume: u16 },
    ThenCheck { volume: u16 },
    ThenStop,
    Last,
}

impl View for AfterSend {
    type V = AfterSendView;

    open spec fn view(&self) -> AfterSendView {
        match self {
            AfterSend::ThenPlay { url, volume } => AfterSendView::ThenPlay {
                url: url@,
                volume: *volume,
            },
            AfterSend::ThenCheck { volume } => AfterSendView::ThenCheck { volume: *volume },
            AfterSend::ThenStop => AfterSendView::ThenStop,
            AfterSend::Last => AfterSendView::Last,
        }
    }
}

/// Where a conversation stands while the status is being fetched.
#[derive(Clone, Copy, Debug, PartialEq, Eq, Structural)]
pub enum AfterStatus {
    /// The look at the status right after playback was asked for.
    Check { volume: u16 },
    /// A poll for the start of playback.
    Poll { volume: u16 },
    /// A probe for the player being reachable, after `current_retries`
    /// probes that found it unreachable.
    Probe { max_retries: u16, sleep_time_millis: u16, current_retries: u16 },
}

/// Where a conversation stands while the caller sleeps.
#[derive(Clone, Copy, Debug, PartialEq, Eq, Structural)]
pub enum AfterSleep {
    /// The pause between two polls for the start of playback.
    ThenPoll { volume: u16 },
    /// The settle delay; the volume is to be set next.
    ThenVolume { volume: u16 },
    /// The pause after the probe that found the player unreachable for the
    /// `current_retries + 1`-th time.
    ThenProbe { max_retries: u16, sleep_time_millis: u16, current_retries: u16 },
}

/// What the caller does next.
#[derive(Debug, PartialEq, Eq)]
pub enum Step {
    /// Send the command, as a request to [`RemoteMediaService::status_url`]
    /// with the query [`Command::query`], and hand the outcome to
    /// [`AfterSend::sent`].
    Send(Command, AfterSend),
    /// Fetch the status, by a request to [`RemoteMediaService::status_url`]
    /// without a query, and hand what [`RemoteMediaService::get_status`]
    /// makes of the answer to [`AfterStatus::status`].
    FetchStatus(AfterStatus),
    /// Sleep for so many milliseconds, then call [`AfterSleep::slept`].
    Sleep(u64, AfterSleep),
    /// Nothing: the operation has ended, with this result.
    Done(Result<(), HomeRadioError>),
}

/// A [`Step`] as contracts see it.
pub enum StepView {
    Send(CommandView, AfterSendView),
    FetchStatus(AfterStatus),
    Sleep(u64, AfterSleep),
    Done(Result<(), HomeRadioError>),
}

impl View for Step {
    type V = StepView;

    open spec fn view(&self) -> StepView {
        match self {
            Step::Send(c, k) => StepView::Send(c@, k@),
            Step::FetchStatus(k) => StepView::FetchStatus(*k),
            Step::Sleep(ms, k) => StepView::Sleep(*ms, *k),
            Step::Done(r) => StepView::Done(*r),
        }
    }
}

impl AfterSendView {
    /// What follows the outcome of sending: a failure ends the operation
    /// with that failure.
    pub open spec fn on_sent(self, outcome: Result<(), HomeRadioError>) -> StepView {
        match outcome {
            Err(e) => StepView::Done(Err(e)),
            Ok(()) => match self {
                AfterSendView::ThenPlay { url, volume } => StepView::Send(
                    CommandView::Play(url),
                    AfterSendView::ThenCheck { volume },
                ),
                AfterSendView::ThenCheck { volume } => StepView::FetchStatus(
                    AfterStatus::Check { volume },
                ),
                AfterSendView::ThenStop => StepView::Send(CommandView::Stop, AfterSendView::Last),
                AfterSendView::Last => StepView::Done(Ok(())),
            },
        }
    }
}

impl AfterStatus {
    /// What follows the outcome of fetching the status.
    ///
    /// In a conversation that starts playback a failure ends the operation.
    /// Right after playback was asked for, a player that is not `stopped`
    /// ends the operation at once, and no volume is set; a `stopped` one is
    /// polled until it is `playing`, with a pause after each poll that
    /// finds it otherwise, and the settle delay after the one that finds it
    /// `playing`.
    ///
    /// A probe ends the wait with success when any status came back, and
    /// with the failure when it is another than the player being
    /// unreachable; an unreachable player is given a pause.
    pub open spec fn on_status(self, outcome: Result<Seq<char>, HomeRadioError>) -> StepView {
        match self {
            AfterStatus::Check { volume } => match outcome {
                Err(e) => StepView::Done(Err(e)),
                Ok(state) => if state == "stopped"@ {
                    StepView::FetchStatus(AfterStatus::Poll { volume })
                } else {
                    StepView::Done(Ok(()))
                },
            },
            AfterStatus::Poll { volume } => match outcome {
                Err(e) => StepView::Done(Err(e)),
                Ok(state) => if state == "playing"@ {
                    StepView::Sleep(SETTLE_DELAY_MILLIS, AfterSleep::ThenVolume { volume })
                } else {
                    StepView::Sleep(POLL_INTERVAL_MILLIS, AfterSleep::ThenPoll { volume })
                },
            },
            AfterStatus::Probe { max_retries, sleep_time_millis, current_retries } => match check_health_spec(
                outcome,
            ) {
                Ok(true) => StepView::Done(Ok(())),
                Ok(false) => StepView::Sleep(
                    sleep_time_millis as u64,
                    AfterSleep::ThenProbe { max_retries, sleep_time_millis, current_retries },
                ),
                Err(e) => StepView::Done(Err(e)),
            },
        }
    }
}

impl AfterSleep {
    /// What follows the sleep.  After the pause that follows a probe the
    /// wait ends as unhealthy once `max_retries` probes were made.
    pub open spec fn on_slept(self) -> StepView {
        match self {
            AfterSleep::ThenPoll { volume } => StepView::FetchStatus(AfterStatus::Poll { volume }),
            AfterSleep::ThenVolume { volume } => StepView::Send(
                CommandView::SetVolume(volume),
                AfterSendView::Last,
            ),
            AfterSleep::ThenProbe { max_retries, sleep_time_millis, current_retries } => if current_retries
                + 1 >= max_retries {
                StepView::Done(Err(HomeRadioError::VLCServerUnhealthy))
            } else {
                StepView::FetchStatus(
                    AfterStatus::Probe {
                        max_retries,
                        sleep_time_millis,
                        current_retries: (current_retries + 1) as u16,
                    },
                )
            },
        }
    }
}

/// Whether the outcome of fetching the status shows a player that is
/// reachable: any status does; a connection that was refused or reset shows
/// one that is not; any other failure is no answer to the question.
pub open spec fn check_health_spec(outcome: Result<Seq<char>, HomeRadioError>) -> Result<
    bool,
    HomeRadioError,
> {
    match outcome {
        Ok(_) => Ok(true),
        Err(e) => if e.is_unreachable() {
            Ok(false)
        } else {
            Err(e)
        },
    }
}

/// The first step of starting playback of `url` at `volume`.
pub open spec fn play_spec(url: Seq<char>, volume: u16) -> StepView {
    StepView::Send(CommandView::ClearPlaylist, AfterSendView::ThenPlay { url, volume })
}

/// The first step of stopping the player.
pub open spec fn stop_spec() -> StepView {
    StepView::Send(CommandView::ClearPlaylist, AfterSendView::ThenStop)
}

/// The one step of setting the volume.
pub open spec fn set_volume_spec(new_vol: u16) -> StepView {
    StepView::Send(CommandView::SetVolume(new_vol), AfterSendView::Last)
}

/// The first step of waiting for the player to be reachable, with at most
/// `max_retries` probes.
pub open spec fn wait_for_healthy_spec(max_retries: u16, sleep_time_millis: u16) -> StepView {
    if max_retries == 0 {
        StepView::Done(Err(HomeRadioError::VLCServerUnhealthy))
    } else {
        StepView::FetchStatus(
            AfterStatus::Probe { max_retries, sleep_time_millis, current_retries: 0 },
        )
    }
}

impl AfterSend {
    /// What the caller does once the command was sent, or could not be.
    pub fn sent(self, outcome: Result<(), HomeRadioError>) -> (step: Step)
        ensures
            step@ == self@.on_sent(outcome),
    {
        match outcome {
            Err(e) => Step::Done(Err(e)),
            Ok(()) => match self {
                AfterSend::ThenPlay { url, volume } => Step::Send(
                    Command::Play(url),
                    AfterSend::ThenCheck { volume },
                ),
                AfterSend::ThenCheck { volume } => Step::FetchStatus(AfterStatus::Check { volume }),
                AfterSend::ThenStop => Step::Send(Command::Stop, AfterSend::Last),
                AfterSend::Last => Step::Done(Ok(())),
            },
        }
    }
}

impl AfterStatus {
    /// What the caller does once the status was fetched, or could not be.
    pub fn status(self, outcome: Result<VlcStatus, HomeRadioError>) -> (step: Step)
        ensures
            step@ == self.on_status(status_view(outcome)),
    {
        match self {
            AfterStatus::Check { volume } => match outcome {
                Err(e) => Step::Done(Err(e)),
                Ok(status) => if str_eq(status.state.as_str(), "stopped") {
                    Step::FetchStatus(AfterStatus::Poll { volume })
                } else {
                    Step::Done(Ok(()))
                },
            },
            AfterStatus::Poll { volume } => match outcome {
                Err(e) => Step::Done(Err(e)),
                Ok(status) => if str_eq(status.state.as_str(), "playing") {
                    Step::Sleep(SETTLE_DELAY_MILLIS, AfterSleep::ThenVolume { volume })
                } else {
                    Step::Sleep(POLL_INTERVAL_MILLIS, AfterSleep::ThenPoll { volume })
                },
            },
            AfterStatus::Probe {
                max_retries,
                sleep_time_millis,
                current_retries,
            } => match RemoteMediaService::check_health(outcome) {
                Ok(true) => Step::Done(Ok(())),
                Ok(false) => Step::Sleep(
                    sleep_time_millis as u64,
                    AfterSleep::ThenProbe { max_retries, sleep_time_millis, current_retries },
                ),
                Err(e) => Step::Done(Err(e)),
            },
        }
    }
}

impl AfterSleep {
    /// What the caller does once it has slept.
    pub fn slept(self) -> (step: Step)
        ensures
            step@ == self.on_slept(),
    {
        match self {
            AfterSleep::ThenPoll { volume } => Step::FetchStatus(AfterStatus::Poll { volume }),
            AfterSleep::ThenVolume { volume } => Step::Send(
                Command::SetVolume(volume),
                AfterSend::Last,
            ),
            AfterSleep::ThenProbe { max_retries, sleep_time_millis, current_retries } => {
                if max_retries == 0 || current_retries >= max_retries - 1 {
                    Step::Done(Err(HomeRadioError::VLCServerUnhealthy))
                } else {
                    Step::FetchStatus(
                        AfterStatus::Probe {
                            max_retries,
                            sleep_time_millis,
                            current_retries: current_retries + 1,
                        },
                    )
                }
            },
        }
    }
}

/// The client: where the player listens and the password it asks for.
#[derive(Clone, Debug)]
pub struct RemoteMediaService {
    base_url: String,
    host: String,
    port: String,
    password: String,
}

/// A [`RemoteMediaService`] as contracts see it.
pub struct RemoteMediaServiceView {
    pub base_url: Seq<char>,
    pub host: Seq<char>,
    pub port: Seq<char>,
    pub password: Seq<char>,
}

impl View for RemoteMediaService {
    type V = RemoteMediaServiceView;

    closed spec fn view(&self) -> RemoteMediaServiceView {
        RemoteMediaServiceView {
            base_url: self.base_url@,
            host: self.host@,
            port: self.port@,
            password: self.password@,
        }
    }
}

impl RemoteMediaService {
    /// The client of the player at `host` and `port`.  Requests to it carry
    /// the empty user name and `pwd`.
    pub fn new_with_auth(host: String, port: String, pwd: String) -> (r: Self)
        ensures
            r@.base_url == "http://"@ + host@ + ":"@ + port@,
            r@.host == host@,
            r@.port == port@,
            r@.password == pwd@,
    {
        let base_url = String::from_str("http://").concat(host.as_str()).concat(":").concat(
            port.as_str(),
        );
        RemoteMediaService { host, port, password: pwd, base_url }
    }

    /// Where every request goes: commands with their query, the fetch of
    /// the status without one.
    pub fn status_url(&self) -> (r: String)
        ensures
            r@ == self@.base_url + "/requests/status.json"@,
    {
        self.base_url.clone().concat("/requests/status.json")
    }

    /// What a fetch of the status comes to.  `fetched` is the failure to get
    /// an answer, or else the status that the body of the answer writes,
    /// `None` where it writes none.
    pub fn get_status(fetched: Result<Option<VlcStatus>, HomeRadioError>) -> (r: Result<
        VlcStatus,
        HomeRadioError,
    >)
        ensures
            r == match fetched {
                Err(e) => Err::<VlcStatus, HomeRadioError>(e),
                Ok(None) => Err(HomeRadioError::Serde),
                Ok(Some(status)) => Ok(status),
            },
    {
        match fetched {
            Err(e) => Err(e),
            Ok(None) => Err(HomeRadioError::Serde),
            Ok(Some(status)) => Ok(status),
        }
    }

    /// Starts playback of `url`, and sets `volume` once the player, found
    /// stopped, has started to play.
    pub fn play(&self, url: &str, volume: u16) -> (step: Step)
        ensures
            step@ == play_spec(url@, volume),
    {
        Step::Send(Command::ClearPlaylist, AfterSend::ThenPlay { url: String::from_str(url), volume })
    }

    /// Waits until the player is reachable, with at most `max_retries`
    /// probes and a sleep of `sleep_time_millis` after each that fails.
    pub fn wait_for_healthy(&self, max_retries: u16, sleep_time_millis: u16) -> (step: Step)
        ensures
            step@ == wait_for_healthy_spec(max_retries, sleep_time_millis),
    {
        if max_retries == 0 {
            Step::Done(Err(HomeRadioError::VLCServerUnhealthy))
        } else {
            Step::FetchStatus(
                AfterStatus::Probe { max_retries, sleep_time_millis, current_retries: 0 },
            )
        }
    }

    /// Whether the outcome of fetching the status shows a player that is
    /// reachable.
    pub fn check_health(outcome: Result<VlcStatus, HomeRadioError>) -> (r: Result<
        bool,
        HomeRadioError,
    >)
        ensures
            r == check_health_spec(status_view(outcome)),
    {
        match outcome {
            Ok(_) => Ok(true),
            Err(e) => if e.unreachable() {
                Ok(false)
            } else {
                Err(e)
            },
        }
    }

    /// Clears the playlist and stops the player.
    pub fn stop(&self) -> (step: Step)
        ensures
            step@ == stop_spec(),
    {
        Step::Send(Command::ClearPlaylist, AfterSend::ThenStop)
    }

    /// Sets the volume of the player.
    pub fn set_volume(&self, new_vol: u16) -> (step: Step)
        ensures
            step@ == set_volume_spec(new_vol),
    {
        Step::Send(Command::SetVolume(new_vol), AfterSend::Last)
    }

    pub fn base_url(&self) -> (r: &String)
        ensures
            r@ == self@.base_url,
    {
        &self.base_url
    }

    pub fn host(&self) -> (r: &String)
        ensures
            r@ == self@.host,
    {
        &self.host
    }

    pub fn port(&self) -> (r: &String)
        ensures
            r@ == self@.port,
    {
        &self.port
    }

    /// The password that requests carry; their user name is empty.
    pub fn password(&self) -> (r: &String)
        ensures
            r@ == self@.password,
    {
        &self.password
    }
}

/// One thing a caller was asked to do.
pub enum Effect {
    Send(CommandView),
    FetchStatus,
    Sleep(u64),
}

/// A conversation with a player: what the caller was asked to do, in order,
/// and how the operation ended, if it did.
pub struct Run {
    pub effects: Seq<Effect>,
    pub result: Option<Result<(), HomeRadioError>>,
}

impl Run {
    pub open spec fn after(self, effect: Effect) -> Run {
        Run { effects: seq![effect] + self.effects, result: self.result }
    }

    /// How often the status was fetched.
    pub open spec fn fetches(self) -> nat {
        fetches(self.effects)
    }
}

/// How many of `effects` are fetches of the status.
pub open spec fn fetches(effects: Seq<Effect>) -> nat
    decreases effects.len(),
{
    if effects.len() == 0 {
        0
    } else if effects[0] is FetchStatus {
        1 + fetches(effects.skip(1))
    } else {
        fetches(effects.skip(1))
    }
}

/// How many of `effects` are commands that set the volume.
pub open spec fn volume_commands(effects: Seq<Effect>) -> nat
    decreases effects.len(),
{
    if effects.len() == 0 {
        0
    } else if effects[0] matches Effect::Send(CommandView::SetVolume(_)) {
        1 + volume_commands(effects.skip(1))
    } else {
        volume_commands(effects.skip(1))
    }
}

/// `n` times a fetch of the status and the sleep of `millis` that follows
/// it.
pub open spec fn rounds(n: nat, millis: u64) -> Seq<Effect>
    decreases n,
{
    if n == 0 {
        Seq::empty()
    } else {
        seq![Effect::FetchStatus, Effect::Sleep(millis)] + rounds((n - 1) as nat, millis)
    }
}

/// What a player answers that is unreachable for the first `k` fetches,
/// failing each with `e`, and then says `state`.
pub open spec fn unreachable_then(k: nat, e: HomeRadioError, state: Seq<char>) -> Seq<
    Result<Seq<char>, HomeRadioError>,
> {
    Seq::new(k, |i: int| Err(e)).push(Ok(state))
}

/// What a player answers that says each of `states` in turn.
pub open spec fn saying(states: Seq<Seq<char>>) -> Seq<Result<Seq<char>, HomeRadioError>> {
    Seq::new(states.len(), |i: int| Ok(states[i]))
}

impl StepView {
    /// How many steps at most follow before the status is fetched or the
    /// operation ends.
    pub open spec fn rank(self) -> nat {
        match self {
            StepView::Done(_) => 0,
            StepView::FetchStatus(_) => 1,
            StepView::Sleep(_, _) => 2,
            StepView::Send(_, AfterSendView::Last) => 1,
            StepView::Send(_, AfterSendView::ThenCheck { .. }) => 2,
            StepView::Send(_, AfterSendView::ThenStop) => 2,
            StepView::Send(_, AfterSendView::ThenPlay { .. }) => 3,
        }
    }
}

/// The conversation from `step` on with a player that takes every command
/// and answers the fetches of its status with `statuses`, one after the
/// other.  Where the statuses run out before the operation ends, the
/// conversation is cut off at the fetch that finds none, with no result.
pub open spec fn run(step: StepView, statuses: Seq<Result<Seq<char>, HomeRadioError>>) -> Run
    decreases statuses.len(), step.rank(),
{
    match step {
        StepView::Done(r) => Run { effects: Seq::empty(), result: Some(r) },
        StepView::Send(command, k) => run(k.on_sent(Ok(())), statuses).after(Effect::Send(command)),
        StepView::Sleep(millis, k) => run(k.on_slept(), statuses).after(Effect::Sleep(millis)),
        StepView::FetchStatus(k) => if statuses.len() == 0 {
            Run { effects: Seq::empty(), result: None }
        } else {
            run(k.on_status(statuses[0]), statuses.skip(1)).after(Effect::FetchStatus)
        },
    }
}

/// The conversation from `step` on is its first step and the conversation
/// from the next step on.
pub proof fn lemma_run_unfolds(step: StepView, statuses: Seq<Result<Seq<char>, HomeRadioError>>)
    ensures
        run(step, statuses) == match step {
            StepView::Done(r) => Run { effects: Seq::empty(), result: Some(r) },
            StepView::Send(command, k) => run(k.on_sent(Ok(())), statuses).after(
                Effect::Send(command),
            ),
            StepView::Sleep(millis, k) => run(k.on_slept(), statuses).after(Effect::Sleep(millis)),
            StepView::FetchStatus(k) => if statuses.len() == 0 {
                Run { effects: Seq::empty(), result: None }
            } else {
                run(k.on_status(statuses[0]), statuses.skip(1)).after(Effect::FetchStatus)
            },
        },
{
}

/// What one more effect in front adds to the counts.
pub proof fn lemma_counts_after(run: Run, effect: Effect)
    ensures
        fetches(run.after(effect).effects) == fetches(run.effects) + if effect is FetchStatus {
            1nat
        } else {
            0nat
        },
        volume_commands(run.after(effect).effects) == volume_commands(run.effects)
            + if effect matches Effect::Send(CommandView::SetVolume(_)) {
            1nat
        } else {
            0nat
        },
{
    assert(run.after(effect).effects.skip(1) =~= run.effects);
}

/// `n` rounds in front add `n` fetches.
pub proof fn lemma_fetches_of_rounds(n: nat, millis: u64, tail: Seq<Effect>)
    ensures
        fetches(rounds(n, millis) + tail) == n + fetches(tail),
    decreases n,
{
    if n == 0 {
        assert(rounds(n, millis) + tail =~= tail);
    } else {
        let all = rounds(n, millis) + tail;
        let rest = rounds((n - 1) as nat, millis) + tail;
        assert(all.skip(1).skip(1) =~= rest);
        assert(fetches(all.skip(1)) == fetches(all.skip(1).skip(1)));
        lemma_fetches_of_rounds((n - 1) as nat, millis, tail);
    }
}

/// The wait from a probe on, after `current` probes found the player
/// unreachable, with a player that is unreachable for `k` more fetches.
proof fn lemma_probes(
    max_retries: u16,
    sleep_time_millis: u16,
    current: u16,
    k: nat,
    e: HomeRadioError,
    state: Seq<char>,
)
    requires
        e.is_unreachable(),
        current < max_retries,
    ensures
        run(
            StepView::FetchStatus(
                AfterStatus::Probe { max_retries, sleep_time_millis, current_retries: current },
            ),
            unreachable_then(k, e, state),
        ) == if current + k < max_retries {
            Run {
                effects: rounds(k, sleep_time_millis as u64) + seq![Effect::FetchStatus],
                result: Some(Ok(())),
            }
        } else {
            Run {
                effects: rounds((max_retries - current) as nat, sleep_time_millis as u64),
                result: Some(Err(HomeRadioError::VLCServerUnhealthy)),
            }
        },
    decreases k,
{
    let millis = sleep_time_millis as u64;
    let statuses = unreachable_then(k, e, state);
    let later = statuses.skip(1);
    let probe = AfterStatus::Probe { max_retries, sleep_time_millis, current_retries: current };
    let r = run(StepView::FetchStatus(probe), statuses);
    lemma_run_unfolds(StepView::FetchStatus(probe), statuses);
    if k == 0 {
        lemma_run_unfolds(StepView::Done(Ok(())), later);
        assert(r.effects =~= rounds(0, millis) + seq![Effect::FetchStatus]);
    } else {
        let pause = AfterSleep::ThenProbe { max_retries, sleep_time_millis, current_retries: current };
        lemma_run_unfolds(StepView::Sleep(millis, pause), later);
        assert(later =~= unreachable_then((k - 1) as nat, e, state));
        assert(rounds(0, millis) =~= Seq::empty());
        if current + 1 >= max_retries {
            lemma_run_unfolds(StepView::Done(Err(HomeRadioError::VLCServerUnhealthy)), later);
            assert(r.effects =~= rounds(1, millis));
        } else {
            lemma_probes(
                max_retries,
                sleep_time_millis,
                (current + 1) as u16,
                (k - 1) as nat,
                e,
                state,
            );
            if current + k < max_retries {
                assert(r.effects =~= rounds(k, millis) + seq![Effect::FetchStatus]);
            } else {
                assert(r.effects =~= rounds((max_retries - current) as nat, millis));
            }
        }
    }
}

/// With a player that is unreachable for the first `k` probes and reachable
/// from then on, the wait succeeds after exactly `k + 1` probes where `k`
/// is less than `max_retries`, and fails as unhealthy after exactly
/// `max_retries` probes otherwise.  After each probe that fails the caller
/// sleeps for `sleep_time_millis`.
pub proof fn lemma_wait_for_healthy(
    max_retries: u16,
    sleep_time_millis: u16,
    k: nat,
    e: HomeRadioError,
    state: Seq<char>,
)
    requires
        e.is_unreachable(),
    ensures
        ({
            let r = run(
                wait_for_healthy_spec(max_retries, sleep_time_millis),
                unreachable_then(k, e, state),
            );
            if k < max_retries {
                &&& r.result == Some(Ok::<(), HomeRadioError>(()))
                &&& r.effects == rounds(k, sleep_time_millis as u64) + seq![Effect::FetchStatus]
                &&& r.fetches() == k + 1
            } else {
                &&& r.result == Some(Err::<(), HomeRadioError>(HomeRadioError::VLCServerUnhealthy))
                &&& r.effects == rounds(max_retries as nat, sleep_time_millis as u64)
                &&& r.fetches() == max_retries
            }
        }),
{
    let millis = sleep_time_millis as u64;
    let statuses = unreachable_then(k, e, state);
    if max_retries == 0 {
        lemma_run_unfolds(StepView::Done(Err(HomeRadioError::VLCServerUnhealthy)), statuses);
        assert(rounds(0, millis) =~= Seq::empty());
    } else {
        lemma_probes(max_retries, sleep_time_millis, 0, k, e, state);
    }
    if k < max_retries {
        lemma_fetches_of_rounds(k, millis, seq![Effect::FetchStatus]);
        assert(fetches(seq![Effect::FetchStatus]) == 1) by {
            reveal_with_fuel(fetches, 2);
        }
    } else {
        lemma_fetches_of_rounds(max_retries as nat, millis, Seq::empty());
        assert(rounds(max_retries as nat, millis) + Seq::empty() =~= rounds(
            max_retries as nat,
            millis,
        ));
    }
}

/// The wait from a probe on, whatever the player answers.
proof fn lemma_probes_are_bounded(
    max_retries: u16,
    sleep_time_millis: u16,
    current: u16,
    statuses: Seq<Result<Seq<char>, HomeRadioError>>,
)
    requires
        current < max_retries,
    ensures
        ({
            let r = run(
                StepView::FetchStatus(
                    AfterStatus::Probe { max_retries, sleep_time_millis, current_retries: current },
                ),
                statuses,
            );
            &&& r.fetches() <= max_retries - current
            &&& r.fetches() <= statuses.len()
            &&& statuses.len() >= max_retries - current ==> r.result is Some
        }),
    decreases statuses.len(),
{
    let probe = AfterStatus::Probe { max_retries, sleep_time_millis, current_retries: current };
    lemma_run_unfolds(StepView::FetchStatus(probe), statuses);
    if statuses.len() > 0 {
        let later = statuses.skip(1);
        let next = probe.on_status(statuses[0]);
        lemma_run_unfolds(next, later);
        lemma_counts_after(run(next, later), Effect::FetchStatus);
        if let StepView::Sleep(millis, pause) = next {
            let then = pause.on_slept();
            lemma_run_unfolds(then, later);
            lemma_counts_after(run(then, later), Effect::Sleep(millis));
            if current + 1 < max_retries {
                lemma_probes_are_bounded(
                    max_retries,
                    sleep_time_millis,
                    (current + 1) as u16,
                    later,
                );
            }
        }
    }
}

/// Whatever the player answers, the wait makes no more than `max_retries`
/// probes, and has ended once the player has answered that many.
pub proof fn lemma_wait_for_healthy_is_bounded(
    max_retries: u16,
    sleep_time_millis: u16,
    statuses: Seq<Result<Seq<char>, HomeRadioError>>,
)
    ensures
        ({
            let r = run(wait_for_healthy_spec(max_retries, sleep_time_millis), statuses);
            &&& r.fetches() <= max_retries
            &&& r.fetches() <= statuses.len()
            &&& statuses.len() >= max_retries ==> r.result is Some
        }),
{
    if max_retries == 0 {
        lemma_run_unfolds(StepView::Done(Err(HomeRadioError::VLCServerUnhealthy)), statuses);
    } else {
        lemma_probes_are_bounded(max_retries, sleep_time_millis, 0, statuses);
    }
}

/// The polls for the start of playback, whatever the player answers.
proof fn lemma_polls_set_volume_once(
    volume: u16,
    statuses: Seq<Result<Seq<char>, HomeRadioError>>,
)
    ensures
        ({
            let r = run(StepView::FetchStatus(AfterStatus::Poll { volume }), statuses);
            &&& volume_commands(r.effects) <= 1
            &&& volume_commands(r.effects) == 1 ==> {
                &&& r.effects.last() == Effect::Send(CommandView::SetVolume(volume))
                &&& exists|j: int|
                    0 <= j < statuses.len() && #[trigger] statuses[j] == Ok::<
                        Seq<char>,
                        HomeRadioError,
                    >("playing"@)
            }
        }),
    decreases statuses.len(),
{
    let poll = AfterStatus::Poll { volume };
    let r = run(StepView::FetchStatus(poll), statuses);
    lemma_run_unfolds(StepView::FetchStatus(poll), statuses);
    if statuses.len() > 0 {
        let later = statuses.skip(1);
        let next = poll.on_status(statuses[0]);
        lemma_run_unfolds(next, later);
        lemma_counts_after(run(next, later), Effect::FetchStatus);
        if let StepView::Sleep(millis, pause) = next {
            let then = pause.on_slept();
            let tail = run(then, later);
            lemma_run_unfolds(then, later);
            lemma_counts_after(tail, Effect::Sleep(millis));
            if statuses[0] == Ok::<Seq<char>, HomeRadioError>("playing"@) {
                let end = run(StepView::Done(Ok(())), later);
                lemma_run_unfolds(StepView::Done(Ok(())), later);
                lemma_counts_after(end, Effect::Send(CommandView::SetVolume(volume)));
                assert(r.effects.last() == Effect::Send(CommandView::SetVolume(volume)));
            } else {
                lemma_polls_set_volume_once(volume, later);
                if volume_commands(r.effects) == 1 {
                    let j = choose|j: int|
                        0 <= j < later.len() && #[trigger] later[j] == Ok::<
                            Seq<char>,
                            HomeRadioError,
                        >("playing"@);
                    assert(statuses[j + 1] == later[j]);
                    assert(tail.effects.len() > 0);
                    assert(r.effects.last() == tail.effects.last());
                }
            }
        }
    }
}

/// Whatever the player answers, starting playback sets the volume at most
/// once, as the last thing it asks for, to `volume`, and only after the
/// player was found `stopped` right after the request and `playing` at a
/// poll after that.
pub proof fn lemma_play_sets_volume_only_once_playing(
    url: Seq<char>,
    volume: u16,
    statuses: Seq<Result<Seq<char>, HomeRadioError>>,
)
    ensures
        ({
            let r = run(play_spec(url, volume), statuses);
            &&& r.effects.len() >= 2
            &&& r.effects[0] == Effect::Send(CommandView::ClearPlaylist)
            &&& r.effects[1] == Effect::Send(CommandView::Play(url))
            &&& volume_commands(r.effects) <= 1
            &&& volume_commands(r.effects) == 1 ==> {
                &&& r.effects.last() == Effect::Send(CommandView::SetVolume(volume))
                &&& statuses.len() > 1
                &&& statuses[0] == Ok::<Seq<char>, HomeRadioError>("stopped"@)
                &&& exists|j: int|
                    1 <= j < statuses.len() && #[trigger] statuses[j] == Ok::<
                        Seq<char>,
                        HomeRadioError,
                    >("playing"@)
            }
        }),
{
    let check = AfterStatus::Check { volume };
    let r = run(play_spec(url, volume), statuses);
    let checked = run(StepView::FetchStatus(check), statuses);
    let asked = checked.after(Effect::Send(CommandView::Play(url)));
    lemma_run_unfolds(play_spec(url, volume), statuses);
    lemma_run_unfolds(
        StepView::Send(CommandView::Play(url), AfterSendView::ThenCheck { volume }),
        statuses,
    );
    lemma_run_unfolds(StepView::FetchStatus(check), statuses);
    lemma_counts_after(checked, Effect::Send(CommandView::Play(url)));
    lemma_counts_after(asked, Effect::Send(CommandView::ClearPlaylist));
    assert(r == asked.after(Effect::Send(CommandView::ClearPlaylist)));
    if statuses.len() > 0 {
        let later = statuses.skip(1);
        let next = check.on_status(statuses[0]);
        let rest = run(next, later);
        lemma_run_unfolds(next, later);
        lemma_counts_after(rest, Effect::FetchStatus);
        if statuses[0] == Ok::<Seq<char>, HomeRadioError>("stopped"@) {
            lemma_polls_set_volume_once(volume, later);
            if volume_commands(r.effects) == 1 {
                let j = choose|j: int|
                    0 <= j < later.len() && #[trigger] later[j] == Ok::<Seq<char>, HomeRadioError>(
                        "playing"@,
                    );
                assert(statuses[j + 1] == later[j]);
                assert(rest.effects.len() > 0);
                assert(r.effects.last() == rest.effects.last());
            }
        }
    }
}

/// The polls of a player that says each of `waiting`, none of them
/// `playing`, and then `playing`.
proof fn lemma_polls(volume: u16, waiting: Seq<Seq<char>>)
    requires
        forall|i: int| 0 <= i < waiting.len() ==> #[trigger] waiting[i] != "playing"@,
    ensures
        run(
            StepView::FetchStatus(AfterStatus::Poll { volume }),
            saying(waiting.push("playing"@)),
        ) == (Run {
            effects: rounds(waiting.len(), POLL_INTERVAL_MILLIS) + seq![
                Effect::FetchStatus,
                Effect::Sleep(SETTLE_DELAY_MILLIS),
                Effect::Send(CommandView::SetVolume(volume)),
            ],
            result: Some(Ok(())),
        }),
    decreases waiting.len(),
{
    let statuses = saying(waiting.push("playing"@));
    let later = statuses.skip(1);
    let poll = AfterStatus::Poll { volume };
    let r = run(StepView::FetchStatus(poll), statuses);
    let end = seq![
        Effect::FetchStatus,
        Effect::Sleep(SETTLE_DELAY_MILLIS),
        Effect::Send(CommandView::SetVolume(volume)),
    ];
    lemma_run_unfolds(StepView::FetchStatus(poll), statuses);
    if waiting.len() == 0 {
        let settle = AfterSleep::ThenVolume { volume };
        lemma_run_unfolds(StepView::Sleep(SETTLE_DELAY_MILLIS, settle), later);
        lemma_run_unfolds(
            StepView::Send(CommandView::SetVolume(volume), AfterSendView::Last),
            later,
        );
        lemma_run_unfolds(StepView::Done(Ok(())), later);
        assert(r.effects =~= rounds(0, POLL_INTERVAL_MILLIS) + end);
    } else {
        let pause = AfterSleep::ThenPoll { volume };
        assert(statuses[0] == Ok::<Seq<char>, HomeRadioError>(waiting[0]));
        lemma_run_unfolds(StepView::Sleep(POLL_INTERVAL_MILLIS, pause), later);
        assert(later =~= saying(waiting.skip(1).push("playing"@)));
        lemma_polls(volume, waiting.skip(1));
        assert(r.effects =~= rounds(waiting.len(), POLL_INTERVAL_MILLIS) + end);
    }
}

/// Starting playback on a player that is found `stopped` right after the
/// request, says each of `waiting` at the polls that follow, none of them
/// `playing`, and then `playing`: the playlist is cleared once, playback is
/// asked for once, the status is polled until it is `playing`, with a pause
/// after each poll in vain, the settle delay passes, and the volume is set
/// once, to `volume`.
pub proof fn lemma_play_sets_volume_once_playing(
    url: Seq<char>,
    volume: u16,
    waiting: Seq<Seq<char>>,
)
    requires
        forall|i: int| 0 <= i < waiting.len() ==> #[trigger] waiting[i] != "playing"@,
    ensures
        run(play_spec(url, volume), saying(seq!["stopped"@] + waiting.push("playing"@))) == (Run {
            effects: seq![
                Effect::Send(CommandView::ClearPlaylist),
                Effect::Send(CommandView::Play(url)),
                Effect::FetchStatus,
            ] + rounds(waiting.len(), POLL_INTERVAL_MILLIS) + seq![
                Effect::FetchStatus,
                Effect::Sleep(SETTLE_DELAY_MILLIS),
                Effect::Send(CommandView::SetVolume(volume)),
            ],
            result: Some(Ok(())),
        }),
{
    let statuses = saying(seq!["stopped"@] + waiting.push("playing"@));
    let r = run(play_spec(url, volume), statuses);
    let check = AfterStatus::Check { volume };
    lemma_run_unfolds(play_spec(url, volume), statuses);
    lemma_run_unfolds(
        StepView::Send(CommandView::Play(url), AfterSendView::ThenCheck { volume }),
        statuses,
    );
    lemma_run_unfolds(StepView::FetchStatus(check), statuses);
    assert(statuses[0] == Ok::<Seq<char>, HomeRadioError>("stopped"@));
    assert(statuses.skip(1) =~= saying(waiting.push("playing"@)));
    lemma_polls(volume, waiting);
    assert(r.effects =~= seq![
        Effect::Send(CommandView::ClearPlaylist),
        Effect::Send(CommandView::Play(url)),
        Effect::FetchStatus,
    ] + rounds(waiting.len(), POLL_INTERVAL_MILLIS) + seq![
        Effect::FetchStatus,
        Effect::Sleep(SETTLE_DELAY_MILLIS),
        Effect::Send(CommandView::SetVolume(volume)),
    ]);
}

/// Starting playback on a player that is found in another state than
/// `stopped` right after the request ends there: no poll follows, and no
/// volume is set.
pub proof fn lemma_play_leaves_volume_unless_stopped(
    url: Seq<char>,
    volume: u16,
    state: Seq<char>,
    later: Seq<Result<Seq<char>, HomeRadioError>>,
)
    requires
        state != "stopped"@,
    ensures
        run(play_spec(url, volume), seq![Ok(state)] + later) == (Run {
            effects: seq![
                Effect::Send(CommandView::ClearPlaylist),
                Effect::Send(CommandView::Play(url)),
                Effect::FetchStatus,
            ],
            result: Some(Ok(())),
        }),
{
    let statuses = seq![Ok::<Seq<char>, HomeRadioError>(state)] + later;
    let r = run(play_spec(url, volume), statuses);
    lemma_run_unfolds(play_spec(url, volume), statuses);
    lemma_run_unfolds(
        StepView::Send(CommandView::Play(url), AfterSendView::ThenCheck { volume }),
        statuses,
    );
    lemma_run_unfolds(StepView::FetchStatus(AfterStatus::Check { volume }), statuses);
    lemma_run_unfolds(StepView::Done(Ok(())), statuses.skip(1));
    assert(r.effects =~= seq![
        Effect::Send(CommandView::ClearPlaylist),
        Effect::Send(CommandView::Play(url)),
        Effect::FetchStatus,
    ]);
}

/// Stopping clears the playlist and then stops the player; the status is
/// not looked at.
pub proof fn lemma_stop_sends_two_commands(statuses: Seq<Result<Seq<char>, HomeRadioError>>)
    ensures
        run(stop_spec(), statuses) == (Run {
            effects: seq![
                Effect::Send(CommandView::ClearPlaylist),
                Effect::Send(CommandView::Stop),
            ],
            result: Some(Ok(())),
        }),
{
    let r = run(stop_spec(), statuses);
    lemma_run_unfolds(stop_spec(), statuses);
    lemma_run_unfolds(StepView::Send(CommandView::Stop, AfterSendView::Last), statuses);
    lemma_run_unfolds(StepView::Done(Ok(())), statuses);
    assert(r.effects =~= seq![
        Effect::Send(CommandView::ClearPlaylist),
        Effect::Send(CommandView::Stop),
    ]);
}

/// Setting the volume sends one command; nothing is read back.
pub proof fn lemma_set_volume_sends_one_command(
    new_vol: u16,
    statuses: Seq<Result<Seq<char>, HomeRadioError>>,
)
    ensures
        run(set_volume_spec(new_vol), statuses) == (Run {
            effects: seq![Effect::Send(CommandView::SetVolume(new_vol))],
            result: Some(Ok(())),
        }),
{
    let r = run(set_volume_spec(new_vol), statuses);
    lemma_run_unfolds(set_volume_spec(new_vol), statuses);
    lemma_run_unfolds(StepView::Done(Ok(())), statuses);
    assert(r.effects =~= seq![Effect::Send(CommandView::SetVolume(new_vol))]);
}

} // verus!
