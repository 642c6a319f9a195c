//! What a request, or the start of the program, asks of the store and of
//! the player, and in which order.
//!
//! A [`Task`] names what the caller does now: read a file of the store,
//! change one, or hold a conversation with the player.  The outcome goes to
//! what the task carries, which names the next task.
use crate::backend::file_backend::{
    current_source_of, layout, lemma_saving_touches_the_catalog_only, lemma_volume_round_trip,
    read_on, removal_of, volume_of, Disk, FileAction, FileActionView, FileBackend,
    FileBackendView,
};
use crate::backend::{
    find_default, first_default, mark_currently_playing, marked, upserted, views,
};
use crate::backend::{MediaSource, MediaSourceView};
use crate::errors::{HomeRadioError, IoKind};
use crate::media_service::remote_media_service::{
    play_spec, set_volume_spec, stop_spec, wait_for_healthy_spec, RemoteMediaService, Step,
    StepView,
};
use crate::text::{parse_u16, parse_u16_spec};
use vstd::prelude::*;
use vstd::string::*;

verus! {

/// How many probes the start of the program allows the player.
pub const STARTUP_MAX_RETRIES: u16 = 20;

/// How long the start of the program sleeps after a probe that fails.
pub const STARTUP_SLEEP_MILLIS: u16 = 200;

/// A conversation with the player.
#[derive(Clone, Debug, PartialEq, Eq)]
pub enum Operation {
    WaitForHealthy { max_retries: u16, sleep_time_millis: u16 },
    Play { url: String, volume: u16 },
    Stop,
    SetVolume(u16),
}

/// An [`Operation`] as contracts see it.
pub enum OperationView {
    WaitForHealthy { max_retries: u16, sleep_time_millis: u16 },
    Play { url: Seq<char>, volume: u16 },
    Stop,
    SetVolume(u16),
}

impl View for Operation {
    type V = OperationView;

    open spec fn view(&self) -> OperationView {
        match self {
            Operation::WaitForHealthy { max_retries, sleep_time_millis } => OperationView::WaitForHealthy {
                max_retries: *max_retries,
                sleep_time_millis: *sleep_time_millis,
            },
            Operation::Play { url, volume } => OperationView::Play { url: url@, volume: *volume },
            Operation::Stop => OperationView::Stop,
            Operation::SetVolume(v) => OperationView::SetVolume(*v),
        }
    }
}

impl OperationView {
    /// The first step of the conversation.
    pub open spec fn first_step(self) -> StepView {
        match self {
            OperationView::WaitForHealthy { max_retries, sleep_time_millis } => wait_for_healthy_spec(
                max_retries,
                sleep_time_millis,
            ),
            OperationView::Play { url, volume } => play_spec(url, volume),
            OperationView::Stop => stop_spec(),
            OperationView::SetVolume(v) => set_volume_spec(v),
        }
    }
}

impl Operation {
    /// The first step of the conversation with `player`.
    pub fn begin(&self, player: &RemoteMediaService) -> (step: Step)
        ensures
            step@ == self@.first_step(),
    {
        match self {
            Operation::WaitForHealthy { max_retries, sleep_time_millis } => player.wait_for_healthy(
                *max_retries,
                *sleep_time_millis,
            ),
            Operation::Play { url, volume } => player.play(url.as_str(), *volume),
            Operation::Stop => player.stop(),
            Operation::SetVolume(v) => player.set_volume(*v),
        }
    }
}

/// Where a request stands while a file of the store is read.
#[derive(Clone, Debug, PartialEq, Eq)]
pub enum AfterRead {
    /// The link last played is read, to resume playback.
    CurrentSource,
    /// The volume is read, to play `url` at it; `record` says whether the
    /// link is then put on record as the one last played.
    Volume { url: String, record: bool },
}

/// An [`AfterRead`] as contracts see it.
pub enum AfterReadView {
    CurrentSource,
    Volume { url: Seq<char>, record: bool },
}

impl View for AfterRead {
    type V = AfterReadView;

    open spec fn view(&self) -> AfterReadView {
        match self {
            AfterRead::CurrentSource => AfterReadView::CurrentSource,
            AfterRead::Volume { url, record } => AfterReadView::Volume { url: url@, record: *record },
        }
    }
}

/// Where a request stands while the catalog is read.
#[derive(Clone, Debug, PartialEq, Eq)]
pub enum AfterCatalog {
    /// Playback is being resumed; the default source is to be played.
    PlayDefault,
    /// This source is to be added to the catalog.
    Add { source: MediaSource },
}

/// An [`AfterCatalog`] as contracts see it.
pub enum AfterCatalogView {
    PlayDefault,
    Add { source: MediaSourceView },
}

impl View for AfterCatalog {
    type V = AfterCatalogView;

    open spec fn view(&self) -> AfterCatalogView {
        match self {
            AfterCatalog::PlayDefault => AfterCatalogView::PlayDefault,
            AfterCatalog::Add { source } => AfterCatalogView::Add { source: source@ },
        }
    }
}

/// Where a request stands while the catalog is written as JSON.
#[derive(Clone, Copy, Debug, PartialEq, Eq, Structural)]
pub enum AfterSerialise {
    /// The text is to be stored in the catalog file.
    Save,
}

/// Where a request stands while a file of the store is changed.
#[derive(Clone, Copy, Debug, PartialEq, Eq, Structural)]
pub enum AfterChange {
    /// The volume is being recorded; the player is to be set to it next.
    ThenSetVolume { volume: u16 },
    /// The link last played is being forgotten; the player is to be stopped
    /// next.
    ThenStop,
    /// The change is the last thing the request asks for, and the request
    /// succeeds whether or not the change did.
    Settled,
    /// The change is the last thing the request asks for, and the request
    /// ends as the change does.
    Last,
}

/// Where a request stands while a conversation with the player goes on.
#[derive(Clone, Debug, PartialEq, Eq)]
pub enum AfterPlayer {
    /// The player is waited for; playback is to be resumed next.
    Resume,
    /// Playback of `url` is being started; the link is to be put on record
    /// next.
    Record { url: String },
    /// The conversation is the last thing the request asks for.
    Last,
}

/// An [`AfterPlayer`] as contracts see it.
pub enum AfterPlayerView {
    Resume,
    Record { url: Seq<char> },
    Last,
}

impl View for AfterPlayer {
    type V = AfterPlayerView;

    open spec fn view(&self) -> AfterPlayerView {
        match self {
            AfterPlayer::Resume => AfterPlayerView::Resume,
            AfterPlayer::Record { url } => AfterPlayerView::Record { url: url@ },
            AfterPlayer::Last => AfterPlayerView::Last,
        }
    }
}

/// What the caller does next.
#[derive(Debug, PartialEq, Eq)]
pub enum Task {
    /// Read the file at this path, and hand the outcome to
    /// [`AfterRead::read`].
    ReadFile(String, AfterRead),
    /// Read the catalog file, and hand the catalog that
    /// [`FileBackend::get_media_sources`] and its parsing come to, to
    /// [`AfterCatalog::catalog`].
    ReadCatalog(AfterCatalog),
    /// Write this catalog as a JSON array of its entries, each with its
    /// link, name, type and default flag, and hand the text to
    /// [`AfterSerialise::serialised`].
    SerialiseCatalog(Vec<MediaSource>, AfterSerialise),
    /// Carry out the change, and hand the outcome to
    /// [`AfterChange::changed`].
    ChangeFile(FileAction, AfterChange),
    /// Hold the conversation with the player, and hand its result to
    /// [`AfterPlayer::done`].
    Player(Operation, AfterPlayer),
    /// Nothing: the request has ended, with this result.
    Done(Result<(), HomeRadioError>),
}

/// A [`Task`] as contracts see it.
pub enum TaskView {
    ReadFile(Seq<char>, AfterReadView),
    ReadCatalog(AfterCatalogView),
    SerialiseCatalog(Seq<MediaSourceView>, AfterSerialise),
    ChangeFile(FileActionView, AfterChange),
    Player(OperationView, AfterPlayerView),
    Done(Result<(), HomeRadioError>),
}

impl View for Task {
    type V = TaskView;

    open spec fn view(&self) -> TaskView {
        match self {
            Task::ReadFile(path, k) => TaskView::ReadFile(path@, k@),
            Task::ReadCatalog(k) => TaskView::ReadCatalog(k@),
            Task::SerialiseCatalog(sources, k) => TaskView::SerialiseCatalog(views(sources@), *k),
            Task::ChangeFile(action, k) => TaskView::ChangeFile(action@, *k),
            Task::Player(operation, k) => TaskView::Player(operation@, k@),
            Task::Done(r) => TaskView::Done(*r),
        }
    }
}

/// What the start of the program asks for: nothing unless playback is to be
/// resumed, else the player is waited for first.
pub open spec fn autoplay_spec(enabled: bool) -> TaskView {
    if enabled {
        TaskView::Player(
            OperationView::WaitForHealthy {
                max_retries: STARTUP_MAX_RETRIES,
                sleep_time_millis: STARTUP_SLEEP_MILLIS,
            },
            AfterPlayerView::Resume,
        )
    } else {
        TaskView::Done(Ok(()))
    }
}

/// What a request to add `source` to the catalog asks for first: the
/// catalog is read.
pub open spec fn add_media_source_spec(source: MediaSourceView) -> TaskView {
    TaskView::ReadCatalog(AfterCatalogView::Add { source })
}

/// What a request to play `url` asks for first: the volume is read.
pub open spec fn start_playback_spec(store: FileBackendView, url: Seq<char>) -> TaskView {
    TaskView::ReadFile(store.volume_path, AfterReadView::Volume { url, record: true })
}

/// What a request to stop asks for first: the link last played is
/// forgotten.
pub open spec fn stop_playback_spec(store: FileBackendView) -> TaskView {
    TaskView::ChangeFile(store.remove_current_media_source(), AfterChange::ThenStop)
}

/// What a request to set the volume to what `body` writes asks for first:
/// the volume is recorded, unless `body` writes none.
pub open spec fn set_current_volume_spec(store: FileBackendView, body: Seq<char>) -> TaskView {
    match parse_u16_spec(body) {
        Some(volume) => TaskView::ChangeFile(
            store.set_volume(volume),
            AfterChange::ThenSetVolume { volume },
        ),
        None => TaskView::Done(Err(HomeRadioError::ParseInt)),
    }
}

impl AfterReadView {
    /// What follows the outcome of reading the file.
    ///
    /// Where a link is on record as the one last played, it is played, at
    /// the volume that is read next; where none is, the catalog is read for
    /// the default source.  Once the volume is known, playback is started
    /// at it.  A file that cannot be read, or a volume file that writes no
    /// volume, ends the request.
    pub open spec fn on_read(
        self,
        outcome: Result<Seq<char>, IoKind>,
        store: FileBackendView,
    ) -> TaskView {
        match self {
            AfterReadView::CurrentSource => match current_source_of(outcome) {
                Err(e) => TaskView::Done(Err(e)),
                Ok(Some(url)) => TaskView::ReadFile(
                    store.volume_path,
                    AfterReadView::Volume { url, record: false },
                ),
                Ok(None) => TaskView::ReadCatalog(AfterCatalogView::PlayDefault),
            },
            AfterReadView::Volume { url, record } => match volume_of(outcome) {
                Err(e) => TaskView::Done(Err(e)),
                Ok(volume) => TaskView::Player(
                    OperationView::Play { url, volume },
                    if record {
                        AfterPlayerView::Record { url }
                    } else {
                        AfterPlayerView::Last
                    },
                ),
            },
        }
    }
}

impl AfterCatalogView {
    /// What follows the outcome of reading the catalog.  A catalog that
    /// cannot be read ends the request, and nothing is written.
    ///
    /// Where playback is resumed, the first source flagged as default is
    /// played, at the volume that is read next; with none flagged there is
    /// nothing to do.  Where a source is added, the catalog with the source
    /// in it is written as JSON next.
    pub open spec fn on_catalog(
        self,
        outcome: Result<Seq<MediaSourceView>, HomeRadioError>,
        store: FileBackendView,
    ) -> TaskView {
        match outcome {
            Err(e) => TaskView::Done(Err(e)),
            Ok(catalog) => match self {
                AfterCatalogView::PlayDefault => {
                    let i = first_default(catalog);
                    if i < catalog.len() {
                        TaskView::ReadFile(
                            store.volume_path,
                            AfterReadView::Volume { url: catalog[i].link, record: false },
                        )
                    } else {
                        TaskView::Done(Ok(()))
                    }
                },
                AfterCatalogView::Add { source } => TaskView::SerialiseCatalog(
                    upserted(catalog, source),
                    AfterSerialise::Save,
                ),
            },
        }
    }
}

impl AfterSerialise {
    /// What follows the writing of the catalog as JSON: the text is stored
    /// in the catalog file; where there is none, the request fails and no
    /// file is touched.
    pub open spec fn on_serialised(self, text: Option<Seq<char>>, store: FileBackendView) -> TaskView {
        match text {
            None => TaskView::Done(Err(HomeRadioError::Serde)),
            Some(text) => TaskView::ChangeFile(store.save_media_sources(text), AfterChange::Last),
        }
    }
}

impl AfterChange {
    /// What follows the outcome of the change.
    pub open spec fn on_changed(self, outcome: Result<(), IoKind>) -> TaskView {
        match self {
            AfterChange::ThenSetVolume { volume } => match outcome {
                Err(kind) => TaskView::Done(Err(HomeRadioError::Io(kind))),
                Ok(()) => TaskView::Player(OperationView::SetVolume(volume), AfterPlayerView::Last),
            },
            AfterChange::ThenStop => match removal_of(outcome) {
                Err(e) => TaskView::Done(Err(e)),
                Ok(()) => TaskView::Player(OperationView::Stop, AfterPlayerView::Last),
            },
            AfterChange::Settled => TaskView::Done(Ok(())),
            AfterChange::Last => match outcome {
                Err(kind) => TaskView::Done(Err(HomeRadioError::Io(kind))),
                Ok(()) => TaskView::Done(Ok(())),
            },
        }
    }
}

impl AfterPlayerView {
    /// What follows the result of the conversation.
    pub open spec fn on_done(
        self,
        outcome: Result<(), HomeRadioError>,
        store: FileBackendView,
    ) -> TaskView {
        match self {
            AfterPlayerView::Resume => match outcome {
                Err(e) => TaskView::Done(Err(e)),
                Ok(()) => TaskView::ReadFile(
                    store.currently_playing_path,
                    AfterReadView::CurrentSource,
                ),
            },
            AfterPlayerView::Record { url } => match outcome {
                Err(e) => TaskView::Done(Err(e)),
                Ok(()) => TaskView::ChangeFile(
                    store.set_current_media_source(url),
                    AfterChange::Settled,
                ),
            },
            AfterPlayerView::Last => TaskView::Done(outcome),
        }
    }
}

/// What came back when a file was read, as contracts see it.
pub open spec fn read_view(outcome: Result<String, IoKind>) -> Result<Seq<char>, IoKind> {
    match outcome {
        Ok(text) => Ok(text@),
        Err(kind) => Err(kind),
    }
}

/// What came back when the catalog was read, as contracts see it.
pub open spec fn catalog_view(outcome: Result<Vec<MediaSource>, HomeRadioError>) -> Result<
    Seq<MediaSourceView>,
    HomeRadioError,
> {
    match outcome {
        Ok(sources) => Ok(views(sources@)),
        Err(e) => Err(e),
    }
}

/// What the start of the program asks for, with `enabled` saying whether
/// playback is to be resumed.
pub fn autoplay(enabled: bool) -> (task: Task)
    ensures
        task@ == autoplay_spec(enabled),
{
    if enabled {
        Task::Player(
            Operation::WaitForHealthy {
                max_retries: STARTUP_MAX_RETRIES,
                sleep_time_millis: STARTUP_SLEEP_MILLIS,
            },
            AfterPlayer::Resume,
        )
    } else {
        Task::Done(Ok(()))
    }
}

/// What a request to add `source` to the catalog asks for first.
pub fn add_media_source(source: MediaSource) -> (task: Task)
    ensures
        task@ == add_media_source_spec(source@),
{
    Task::ReadCatalog(AfterCatalog::Add { source })
}

/// What a request to play `url` asks for first.
pub fn start_playback(store: &FileBackend, url: &str) -> (task: Task)
    ensures
        task@ == start_playback_spec(store@, url@),
{
    Task::ReadFile(
        store.volume_path().clone(),
        AfterRead::Volume { url: String::from_str(url), record: true },
    )
}

/// What a request to stop asks for first.
pub fn stop_playback(store: &FileBackend) -> (task: Task)
    ensures
        task@ == stop_playback_spec(store@),
{
    Task::ChangeFile(store.remove_current_media_source(), AfterChange::ThenStop)
}

/// What a request to set the volume to what `body` writes asks for first.
pub fn set_current_volume(store: &FileBackend, body: &str) -> (task: Task)
    ensures
        task@ == set_current_volume_spec(store@, body@),
{
    match parse_u16(body) {
        Some(volume) => Task::ChangeFile(
            store.set_volume(volume),
            AfterChange::ThenSetVolume { volume },
        ),
        None => Task::Done(Err(HomeRadioError::ParseInt)),
    }
}

impl AfterRead {
    /// What the caller does once the file was read, or could not be.
    pub fn read(self, outcome: Result<String, IoKind>, store: &FileBackend) -> (task: Task)
        ensures
            task@ == self@.on_read(read_view(outcome), store@),
    {
        match self {
            AfterRead::CurrentSource => match FileBackend::get_current_media_source(outcome) {
                Err(e) => Task::Done(Err(e)),
                Ok(Some(url)) => Task::ReadFile(
                    store.volume_path().clone(),
                    AfterRead::Volume { url, record: false },
                ),
                Ok(None) => Task::ReadCatalog(AfterCatalog::PlayDefault),
            },
            AfterRead::Volume { url, record } => match FileBackend::get_volume(outcome) {
                Err(e) => Task::Done(Err(e)),
                Ok(volume) => if record {
                    Task::Player(
                        Operation::Play { url: url.clone(), volume },
                        AfterPlayer::Record { url },
                    )
                } else {
                    Task::Player(Operation::Play { url, volume }, AfterPlayer::Last)
                },
            },
        }
    }
}

impl AfterCatalog {
    /// What the caller does once the catalog was read, or could not be.
    pub fn catalog(
        self,
        outcome: Result<Vec<MediaSource>, HomeRadioError>,
        store: &FileBackend,
    ) -> (task: Task)
        ensures
            task@ == self@.on_catalog(catalog_view(outcome), store@),
    {
        match self {
            AfterCatalog::PlayDefault => match outcome {
                Err(e) => Task::Done(Err(e)),
                Ok(sources) => match find_default(&sources) {
                    Some(source) => Task::ReadFile(
                        store.volume_path().clone(),
                        AfterRead::Volume { url: source.link.clone(), record: false },
                    ),
                    None => Task::Done(Ok(())),
                },
            },
            AfterCatalog::Add { source } => match FileBackend::add_media_source(outcome, source) {
                Err(e) => Task::Done(Err(e)),
                Ok(added) => Task::SerialiseCatalog(added, AfterSerialise::Save),
            },
        }
    }
}

impl AfterSerialise {
    /// What the caller does once the catalog was written as JSON, `text`,
    /// or could not be, `None`.
    pub fn serialised(self, text: Option<String>, store: &FileBackend) -> (task: Task)
        ensures
            task@ == self.on_serialised(
                match text {
                    Some(t) => Some(t@),
                    None => None,
                },
                store@,
            ),
    {
        match text {
            None => Task::Done(Err(HomeRadioError::Serde)),
            Some(text) => Task::ChangeFile(
                store.save_media_sources(text.as_str()),
                AfterChange::Last,
            ),
        }
    }
}

impl AfterChange {
    /// What the caller does once the change was made, or could not be.
    pub fn changed(self, outcome: Result<(), IoKind>) -> (task: Task)
        ensures
            task@ == self.on_changed(outcome),
    {
        match self {
            AfterChange::ThenSetVolume { volume } => match outcome {
                Err(kind) => Task::Done(Err(HomeRadioError::Io(kind))),
                Ok(()) => Task::Player(Operation::SetVolume(volume), AfterPlayer::Last),
            },
            AfterChange::ThenStop => match FileBackend::current_media_source_removed(outcome) {
                Err(e) => Task::Done(Err(e)),
                Ok(()) => Task::Player(Operation::Stop, AfterPlayer::Last),
            },
            AfterChange::Settled => Task::Done(Ok(())),
            AfterChange::Last => match outcome {
                Err(kind) => Task::Done(Err(HomeRadioError::Io(kind))),
                Ok(()) => Task::Done(Ok(())),
            },
        }
    }
}

impl AfterPlayer {
    /// What the caller does once the conversation has ended.
    pub fn done(self, outcome: Result<(), HomeRadioError>, store: &FileBackend) -> (task: Task)
        ensures
            task@ == self@.on_done(outcome, store@),
    {
        match self {
            AfterPlayer::Resume => match outcome {
                Err(e) => Task::Done(Err(e)),
                Ok(()) => Task::ReadFile(
                    store.currently_playing_path().clone(),
                    AfterRead::CurrentSource,
                ),
            },
            AfterPlayer::Record { url } => match outcome {
                Err(e) => Task::Done(Err(e)),
                Ok(()) => Task::ChangeFile(
                    store.set_current_media_source(url.as_str()),
                    AfterChange::Settled,
                ),
            },
            AfterPlayer::Last => Task::Done(outcome),
        }
    }
}

/// The catalog as a request to list it shows it: exactly the entries whose
/// link is the one last played are marked as playing, and none is where no
/// link is on record.  Where both reads failed, the failure to read the
/// link last played is the one reported.
pub fn list_media_sources(
    catalog: Result<Vec<MediaSource>, HomeRadioError>,
    current: Result<Option<String>, HomeRadioError>,
) -> (r: Result<Vec<MediaSource>, HomeRadioError>)
    ensures
        match (catalog, current) {
            (_, Err(e)) => r == Err::<Vec<MediaSource>, HomeRadioError>(e),
            (Err(e), Ok(_)) => r == Err::<Vec<MediaSource>, HomeRadioError>(e),
            (Ok(sources), Ok(link)) => r matches Ok(listed) && views(listed@) == marked(
                views(sources@),
                match link {
                    Some(url) => Some(url@),
                    None => None,
                },
            ),
        },
{
    match current {
        Err(e) => Err(e),
        Ok(link) => match catalog {
            Err(e) => Err(e),
            Ok(sources) => {
                let mut listed = sources;
                mark_currently_playing(&mut listed, &link);
                Ok(listed)
            },
        },
    }
}

/// The store and the player as a request finds them.
pub struct World {
    /// The files of the store.
    pub disk: Disk,
    /// What reading the catalog gives.
    pub catalog: Result<Seq<MediaSourceView>, HomeRadioError>,
    /// What writing a catalog as JSON gives.
    pub serialise: spec_fn(Seq<MediaSourceView>) -> Option<Seq<char>>,
    /// How each conversation with the player ends.
    pub player: spec_fn(OperationView) -> Result<(), HomeRadioError>,
}

/// What a request has come to.
pub struct Outcome {
    /// The files of the store after the request.
    pub disk: Disk,
    /// The conversations that were held with the player, in order.
    pub operations: Seq<OperationView>,
    pub result: Result<(), HomeRadioError>,
}

impl Outcome {
    pub open spec fn after(self, operation: OperationView) -> Outcome {
        Outcome { operations: seq![operation] + self.operations, ..self }
    }
}

impl TaskView {
    /// How many tasks at most follow this one.
    pub open spec fn rank(self) -> nat {
        match self {
            TaskView::Done(_) => 0,
            TaskView::ChangeFile(_, AfterChange::Settled) => 1,
            TaskView::Player(_, AfterPlayerView::Last) => 1,
            TaskView::ChangeFile(_, _) => 2,
            TaskView::Player(_, AfterPlayerView::Record { .. }) => 2,
            TaskView::ReadFile(_, AfterReadView::Volume { .. }) => 3,
            TaskView::SerialiseCatalog(_, _) => 3,
            TaskView::ReadCatalog(_) => 4,
            TaskView::ReadFile(_, AfterReadView::CurrentSource) => 5,
            TaskView::Player(_, AfterPlayerView::Resume) => 6,
        }
    }
}

/// What a request comes to from `task` on, in `world`: each read finds what
/// the files hold, each change is made where the state of the files allows
/// it, each conversation ends as the player of `world` has it.
pub open spec fn carry_out(task: TaskView, store: FileBackendView, world: World) -> Outcome
    decreases task.rank(),
{
    match task {
        TaskView::Done(r) => Outcome { disk: world.disk, operations: Seq::empty(), result: r },
        TaskView::ReadFile(path, k) => carry_out(
            k.on_read(read_on(world.disk, path), store),
            store,
            world,
        ),
        TaskView::ReadCatalog(k) => carry_out(k.on_catalog(world.catalog, store), store, world),
        TaskView::SerialiseCatalog(catalog, k) => carry_out(
            k.on_serialised((world.serialise)(catalog), store),
            store,
            world,
        ),
        TaskView::ChangeFile(action, k) => carry_out(
            k.on_changed(action.outcome(world.disk)),
            store,
            World { disk: action.apply(world.disk), ..world },
        ),
        TaskView::Player(operation, k) => carry_out(
            k.on_done((world.player)(operation), store),
            store,
            world,
        ).after(operation),
    }
}

/// A request to add a source asks nothing of the player.  Where the catalog
/// cannot be read, or the catalog with the source in it cannot be written
/// as JSON, the request fails with that failure and no file is touched: a
/// catalog file that does not parse stays as it is.  Else that JSON becomes
/// the whole content of the catalog file.  Either way the volume and the
/// link last played are read as before.
pub proof fn lemma_add_media_source(dir: Seq<char>, world: World, source: MediaSourceView)
    ensures
        ({
            let store = layout(dir);
            let out = carry_out(add_media_source_spec(source), store, world);
            &&& out.operations == Seq::<OperationView>::empty()
            &&& store.volume_on(out.disk) == store.volume_on(world.disk)
            &&& store.current_source_on(out.disk) == store.current_source_on(world.disk)
            &&& match world.catalog {
                Err(e) => out.result == Err::<(), HomeRadioError>(e) && out.disk == world.disk,
                Ok(catalog) => match (world.serialise)(upserted(catalog, source)) {
                    None => out.result == Err::<(), HomeRadioError>(HomeRadioError::Serde)
                        && out.disk == world.disk,
                    Some(text) => out.result is Ok && out.disk == store.save_media_sources(
                        text,
                    ).apply(world.disk),
                },
            }
        }),
{
    reveal_with_fuel(carry_out, 4);
    if let Ok(catalog) = world.catalog {
        if let Some(text) = (world.serialise)(upserted(catalog, source)) {
            lemma_saving_touches_the_catalog_only(dir, world.disk, text);
        }
    }
}

/// A request to play asks the player for `url` at the volume on record and
/// for nothing else.  Where the player starts to play, `url` is put on
/// record as the link last played, and is the link read from then on.
/// Where it does not, the request fails as the player did and the files
/// stay as they were.
pub proof fn lemma_start_playback(
    store: FileBackendView,
    world: World,
    url: Seq<char>,
    volume: u16,
)
    requires
        store.volume_on(world.disk) == Ok::<u16, HomeRadioError>(volume),
    ensures
        ({
            let play = OperationView::Play { url, volume };
            let out = carry_out(start_playback_spec(store, url), store, world);
            &&& out.operations == seq![play]
            &&& (world.player)(play) is Ok ==> {
                &&& out.result is Ok
                &&& out.disk == store.set_current_media_source(url).apply(world.disk)
                &&& url.len() > 0 ==> store.current_source_on(out.disk) == Ok::<
                    Option<Seq<char>>,
                    HomeRadioError,
                >(Some(url))
            }
            &&& (world.player)(play) is Err ==> {
                &&& out.result == (world.player)(play)
                &&& out.disk == world.disk
            }
        }),
{
    reveal_with_fuel(carry_out, 4);
}

/// A request to stop forgets the link last played, so that none is read
/// from then on, and then asks the player to stop and for nothing else.
/// The request ends as that conversation does.
pub proof fn lemma_stop_playback(store: FileBackendView, world: World)
    ensures
        ({
            let out = carry_out(stop_playback_spec(store), store, world);
            &&& out.operations == seq![OperationView::Stop]
            &&& out.result == (world.player)(OperationView::Stop)
            &&& out.disk == store.remove_current_media_source().apply(world.disk)
            &&& store.current_source_on(out.disk) == Ok::<Option<Seq<char>>, HomeRadioError>(None)
        }),
{
    reveal_with_fuel(carry_out, 3);
}

/// A request to set the volume to what `body` writes records that volume,
/// so that it is the volume read from then on, and then asks the player for
/// it and for nothing else.  Where `body` writes no volume the request
/// fails and nothing is touched.
pub proof fn lemma_set_current_volume(store: FileBackendView, world: World, body: Seq<char>)
    ensures
        ({
            let out = carry_out(set_current_volume_spec(store, body), store, world);
            match parse_u16_spec(body) {
                Some(volume) => {
                    &&& out.operations == seq![OperationView::SetVolume(volume)]
                    &&& out.result == (world.player)(OperationView::SetVolume(volume))
                    &&& out.disk == store.set_volume(volume).apply(world.disk)
                    &&& store.volume_on(out.disk) == Ok::<u16, HomeRadioError>(volume)
                },
                None => {
                    &&& out.operations == Seq::<OperationView>::empty()
                    &&& out.result == Err::<(), HomeRadioError>(HomeRadioError::ParseInt)
                    &&& out.disk == world.disk
                },
            }
        }),
{
    reveal_with_fuel(carry_out, 3);
    if let Some(volume) = parse_u16_spec(body) {
        lemma_volume_round_trip(store, world.disk, volume);
    }
}

/// The link that playback is resumed with: the one last played, or that of
/// the first source flagged as default, if there is either.
pub open spec fn resumed_link(current: Option<Seq<char>>, catalog: Seq<MediaSourceView>) -> Option<
    Seq<char>,
> {
    match current {
        Some(url) => Some(url),
        None => if first_default(catalog) < catalog.len() {
            Some(catalog[first_default(catalog)].link)
        } else {
            None
        },
    }
}

/// The start of the program changes no file.  Unless playback is to be
/// resumed it asks nothing of the player.  Else it waits for the player,
/// with at most 20 probes 200 milliseconds apart, and fails where the wait
/// does, without reading a file or asking for anything more.  Once the
/// player is reachable it plays the link last played, or else the default
/// source, at the volume on record, and asks for nothing where there is
/// neither.  The catalog is read only where no link is on record, the
/// volume only where there is something to play.
pub proof fn lemma_autoplay(store: FileBackendView, world: World, enabled: bool)
    ensures
        ({
            let wait = OperationView::WaitForHealthy {
                max_retries: STARTUP_MAX_RETRIES,
                sleep_time_millis: STARTUP_SLEEP_MILLIS,
            };
            let out = carry_out(autoplay_spec(enabled), store, world);
            &&& out.disk == world.disk
            &&& !enabled ==> out.operations == Seq::<OperationView>::empty() && out.result is Ok
            &&& enabled ==> if (world.player)(wait) is Err {
                out.operations == seq![wait] && out.result == (world.player)(wait)
            } else {
                match store.current_source_on(world.disk) {
                    Err(e) => out.operations == seq![wait] && out.result == Err::<
                        (),
                        HomeRadioError,
                    >(e),
                    Ok(current) => if current is None && world.catalog is Err {
                        out.operations == seq![wait] && out.result == Err::<(), HomeRadioError>(
                            world.catalog->Err_0,
                        )
                    } else {
                        match resumed_link(
                            current,
                            if current is None {
                                world.catalog->Ok_0
                            } else {
                                Seq::empty()
                            },
                        ) {
                            None => out.operations == seq![wait] && out.result is Ok,
                            Some(url) => match store.volume_on(world.disk) {
                                Err(e) => out.operations == seq![wait] && out.result == Err::<
                                    (),
                                    HomeRadioError,
                                >(e),
                                Ok(volume) => {
                                    let play = OperationView::Play { url, volume };
                                    out.operations == seq![wait, play] && out.result == (
                                    world.player)(play)
                                },
                            },
                        }
                    },
                }
            }
        }),
{
    reveal_with_fuel(carry_out, 6);
}

} // verus!
