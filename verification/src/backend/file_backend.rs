//! The store: three files under one directory that hold the catalog, the
//! volume and the link last played.
//!
//! Nothing here opens a file.  The functions say which change to the files
//! comes next ([`FileAction`]) and what the outcome of a read or a change
//! means; the caller carries the changes out.
use crate::backend::{mark_currently_playing, position_of, upserted, views, MediaSource};
use crate::errors::{HomeRadioError, IoKind};
use crate::text::{decimal, format_u16, parse_u16, parse_u16_spec, lemma_parse_decimal};
use vstd::prelude::*;
use vstd::string::*;

verus! {

/// The volume of a store that holds none yet.
pub const DEFAULT_VOLUME: u16 = 100;

/// One change to the files of the store, for the caller to carry out.
#[derive(Clone, Debug, PartialEq, Eq)]
pub enum FileAction {
    /// Create the directory at this path, and its parents, unless it exists.
    CreateDirAll(String),
    /// Create an empty file at this path; fail where anything exists there.
    CreateNew(String),
    /// Make the text the whole content of the file at this path.
    Write(String, String),
    /// Remove the file at this path.
    Remove(String),
}

/// A [`FileAction`] as contracts see it.
pub enum FileActionView {
    CreateDirAll(Seq<char>),
    CreateNew(Seq<char>),
    Write(Seq<char>, Seq<char>),
    Remove(Seq<char>),
}

impl View for FileAction {
    type V = FileActionView;

    open spec fn view(&self) -> FileActionView {
        match self {
            FileAction::CreateDirAll(p) => FileActionView::CreateDirAll(p@),
            FileAction::CreateNew(p) => FileActionView::CreateNew(p@),
            FileAction::Write(p, t) => FileActionView::Write(p@, t@),
            FileAction::Remove(p) => FileActionView::Remove(p@),
        }
    }
}

/// The files of a store as contracts see them: the content of each file
/// that exists, by its path.
pub type Disk = Map<Seq<char>, Seq<char>>;

/// What reading the file at `path` gives.
pub open spec fn read_on(disk: Disk, path: Seq<char>) -> Result<Seq<char>, IoKind> {
    if disk.contains_key(path) {
        Ok(disk[path])
    } else {
        Err(IoKind::NotFound)
    }
}

impl FileActionView {
    /// The files after the action, where the file system fails for no
    /// reason but the state of the files.
    pub open spec fn apply(self, disk: Disk) -> Disk {
        match self {
            FileActionView::CreateDirAll(_) => disk,
            FileActionView::CreateNew(p) => if disk.contains_key(p) {
                disk
            } else {
                disk.insert(p, Seq::empty())
            },
            FileActionView::Write(p, t) => disk.insert(p, t),
            FileActionView::Remove(p) => disk.remove(p),
        }
    }

    /// What the action reports on such a file system.
    pub open spec fn outcome(self, disk: Disk) -> Result<(), IoKind> {
        match self {
            FileActionView::CreateDirAll(_) => Ok(()),
            FileActionView::CreateNew(p) => if disk.contains_key(p) {
                Err(IoKind::AlreadyExists)
            } else {
                Ok(())
            },
            FileActionView::Write(_, _) => Ok(()),
            FileActionView::Remove(p) => if disk.contains_key(p) {
                Ok(())
            } else {
                Err(IoKind::NotFound)
            },
        }
    }
}

/// The files after each of `actions` in turn.
pub open spec fn apply_all(actions: Seq<FileActionView>, disk: Disk) -> Disk
    decreases actions.len(),
{
    if actions.len() == 0 {
        disk
    } else {
        actions.last().apply(apply_all(actions.drop_last(), disk))
    }
}

/// `name` under the directory `dir`: the two joined by one separator, unless
/// `dir` is empty or ends in one already.
pub open spec fn joined(dir: Seq<char>, name: Seq<char>) -> Seq<char> {
    if dir.len() == 0 || dir.last() == '/' {
        dir + name
    } else {
        dir + seq!['/'] + name
    }
}

/// Where a store keeps its files.
pub struct FileBackendView {
    pub dir: Seq<char>,
    pub media_file_path: Seq<char>,
    pub volume_path: Seq<char>,
    pub currently_playing_path: Seq<char>,
}

/// The files of the store rooted at `dir`.
pub open spec fn layout(dir: Seq<char>) -> FileBackendView {
    FileBackendView {
        dir,
        media_file_path: joined(dir, "media-sources.json"@),
        volume_path: joined(dir, "volume"@),
        currently_playing_path: joined(dir, "currently-playing"@),
    }
}

impl FileBackendView {
    /// What brings the files of the store into being: the directory first,
    /// then each file unless it exists.
    pub open spec fn creation_plan(self) -> Seq<FileActionView> {
        seq![
            FileActionView::CreateDirAll(self.dir),
            FileActionView::CreateNew(self.media_file_path),
            FileActionView::CreateNew(self.volume_path),
            FileActionView::CreateNew(self.currently_playing_path),
        ]
    }

    /// The change that stores the catalog: `text` becomes the whole content
    /// of the catalog file.
    pub open spec fn save_media_sources(self, text: Seq<char>) -> FileActionView {
        FileActionView::Write(self.media_file_path, text)
    }

    /// The change that records `volume`: its decimal writing becomes the
    /// whole content of the volume file.
    pub open spec fn set_volume(self, volume: u16) -> FileActionView {
        FileActionView::Write(self.volume_path, decimal(volume as nat))
    }

    /// The change that records `url` as the link last played.
    pub open spec fn set_current_media_source(self, url: Seq<char>) -> FileActionView {
        FileActionView::Write(self.currently_playing_path, url)
    }

    /// The change that forgets the link last played.
    pub open spec fn remove_current_media_source(self) -> FileActionView {
        FileActionView::Remove(self.currently_playing_path)
    }

    /// The volume of the store whose files are `disk`.
    pub open spec fn volume_on(self, disk: Disk) -> Result<u16, HomeRadioError> {
        volume_of(read_on(disk, self.volume_path))
    }

    /// The link last played of the store whose files are `disk`.
    pub open spec fn current_source_on(self, disk: Disk) -> Result<
        Option<Seq<char>>,
        HomeRadioError,
    > {
        current_source_of(read_on(disk, self.currently_playing_path))
    }
}

/// The views of a plan's actions, in order.
pub open spec fn action_views(plan: Seq<FileAction>) -> Seq<FileActionView> {
    Seq::new(plan.len(), |i: int| plan[i]@)
}

/// What the outcome of one step of the creation plan means: a file that is
/// there already is as good as one just created, any other failure ends the
/// creation.
pub open spec fn creation_step_spec(action: FileActionView, outcome: Result<(), IoKind>) -> Result<
    (),
    HomeRadioError,
> {
    match outcome {
        Ok(()) => Ok(()),
        Err(kind) => if action is CreateNew && kind == IoKind::AlreadyExists {
            Ok(())
        } else {
            Err(HomeRadioError::Io(kind))
        },
    }
}

/// What the volume file says: 100 where it is empty, else the number it
/// writes in decimal.
pub open spec fn volume_of(read: Result<Seq<char>, IoKind>) -> Result<u16, HomeRadioError> {
    match read {
        Err(kind) => Err(HomeRadioError::Io(kind)),
        Ok(text) => if text.len() == 0 {
            Ok(DEFAULT_VOLUME)
        } else {
            match parse_u16_spec(text) {
                Some(v) => Ok(v),
                None => Err(HomeRadioError::ParseInt),
            }
        },
    }
}

/// What the file of the link last played says: nothing is playing where the
/// file is missing or empty, else its content is the link.
pub open spec fn current_source_of(read: Result<Seq<char>, IoKind>) -> Result<
    Option<Seq<char>>,
    HomeRadioError,
> {
    match read {
        Ok(text) => if text.len() == 0 {
            Ok(None)
        } else {
            Ok(Some(text))
        },
        Err(kind) => if kind == IoKind::NotFound {
            Ok(None)
        } else {
            Err(HomeRadioError::Io(kind))
        },
    }
}

/// What the outcome of removing the file of the link last played means: a
/// file that was not there is as good as one removed.
pub open spec fn removal_of(outcome: Result<(), IoKind>) -> Result<(), HomeRadioError> {
    match outcome {
        Ok(()) => Ok(()),
        Err(kind) => if kind == IoKind::NotFound {
            Ok(())
        } else {
            Err(HomeRadioError::Io(kind))
        },
    }
}

/// What comes after the catalog file was read.
#[derive(Clone, Debug, PartialEq, Eq)]
pub enum CatalogRead {
    /// The catalog is known: the file was empty, and so is the catalog.
    Known(Vec<MediaSource>),
    /// The file holds this text, which is to be read as a JSON array of
    /// sources.
    Parse(String),
    /// The file could not be read.
    Failed(HomeRadioError),
}

impl CatalogRead {
    /// The catalog that the read comes to.  Where the text of the file was
    /// to be parsed, `parsed` is the catalog that the text writes, or `None`
    /// where it writes none; otherwise `parsed` is not looked at.
    pub fn resolve(self, parsed: Option<Vec<MediaSource>>) -> (r: Result<
        Vec<MediaSource>,
        HomeRadioError,
    >)
        ensures
            r == match self {
                CatalogRead::Known(sources) => Ok::<Vec<MediaSource>, HomeRadioError>(sources),
                CatalogRead::Failed(e) => Err(e),
                CatalogRead::Parse(_) => match parsed {
                    Some(sources) => Ok(sources),
                    None => Err(HomeRadioError::Serde),
                },
            },
    {
        match self {
            CatalogRead::Known(sources) => Ok(sources),
            CatalogRead::Failed(e) => Err(e),
            CatalogRead::Parse(_) => match parsed {
                Some(sources) => Ok(sources),
                None => Err(HomeRadioError::Serde),
            },
        }
    }
}

/// The store: where its three files are.
#[derive(Clone, Debug, PartialEq, Eq)]
pub struct FileBackend {
    dir: String,
    media_file_path: String,
    volume_path: String,
    currently_playing_path: String,
}

impl View for FileBackend {
    type V = FileBackendView;

    closed spec fn view(&self) -> FileBackendView {
        FileBackendView {
            dir: self.dir@,
            media_file_path: self.media_file_path@,
            volume_path: self.volume_path@,
            currently_playing_path: self.currently_playing_path@,
        }
    }
}

/// The path of `name` under `dir`.
fn join(dir: &str, name: &str) -> (r: String)
    ensures
        r@ == joined(dir@, name@),
{
    let n = dir.unicode_len();
    let mut path = String::from_str(dir);
    if n > 0 && dir.get_char(n - 1) != '/' {
        proof {
            reveal_strlit("/");
        }
        path.append("/");
    }
    path.append(name);
    path
}

impl FileBackend {
    /// The store rooted at `dir`.  Its files come into being by
    /// [`FileBackend::creation_plan`].
    pub fn new(dir: &str) -> (r: FileBackend)
        ensures
            r@ == layout(dir@),
    {
        FileBackend {
            dir: String::from_str(dir),
            media_file_path: join(dir, "media-sources.json"),
            volume_path: join(dir, "volume"),
            currently_playing_path: join(dir, "currently-playing"),
        }
    }

    /// The changes that bring the files of the store into being, in order.
    /// None of them touches the content of a file that exists.
    pub fn creation_plan(&self) -> (plan: Vec<FileAction>)
        ensures
            action_views(plan@) == self@.creation_plan(),
    {
        let mut plan: Vec<FileAction> = Vec::new();
        plan.push(FileAction::CreateDirAll(self.dir.clone()));
        plan.push(FileAction::CreateNew(self.media_file_path.clone()));
        plan.push(FileAction::CreateNew(self.volume_path.clone()));
        plan.push(FileAction::CreateNew(self.currently_playing_path.clone()));
        plan
    }

    /// Judges the outcome of one step of the creation plan.  The creation
    /// goes on while this returns `Ok`.
    pub fn creation_step(action: &FileAction, outcome: Result<(), IoKind>) -> (r: Result<
        (),
        HomeRadioError,
    >)
        ensures
            r == creation_step_spec(action@, outcome),
    {
        match outcome {
            Ok(()) => Ok(()),
            Err(kind) => match (action, kind) {
                (FileAction::CreateNew(_), IoKind::AlreadyExists) => Ok(()),
                _ => Err(HomeRadioError::Io(kind)),
            },
        }
    }

    /// What comes after the catalog file was read: an empty file is an empty
    /// catalog, any other content is to be parsed.
    pub fn get_media_sources(read: Result<String, IoKind>) -> (r: CatalogRead)
        ensures
            match read {
                Err(kind) => r == CatalogRead::Failed(HomeRadioError::Io(kind)),
                Ok(text) => if text@.len() == 0 {
                    r matches CatalogRead::Known(sources) && sources@.len() == 0
                } else {
                    r == CatalogRead::Parse(text)
                },
            },
    {
        match read {
            Err(kind) => CatalogRead::Failed(HomeRadioError::Io(kind)),
            Ok(text) => if text.as_str().is_empty() {
                CatalogRead::Known(Vec::new())
            } else {
                CatalogRead::Parse(text)
            },
        }
    }

    /// The catalog after `source` was added to what reading the catalog came
    /// to.  The source overwrites the entry that has its name, where there is
    /// one, and is appended otherwise; no entry of the result is marked as
    /// playing.  Where the catalog could not be read there is no catalog to
    /// add to, and the failure is handed on.
    pub fn add_media_source(
        read: Result<Vec<MediaSource>, HomeRadioError>,
        source: MediaSource,
    ) -> (r: Result<Vec<MediaSource>, HomeRadioError>)
        ensures
            match read {
                Err(e) => r == Err::<Vec<MediaSource>, HomeRadioError>(e),
                Ok(sources) => r matches Ok(added) && views(added@) == upserted(
                    views(sources@),
                    source@,
                ),
            },
    {
        match read {
            Err(e) => Err(e),
            Ok(sources) => {
                let mut added = sources;
                let i = position_of(&added, &source.name);
                if i < added.len() {
                    added.set(i, source);
                } else {
                    added.push(source);
                }
                mark_currently_playing(&mut added, &None);
                Ok(added)
            },
        }
    }

    /// The change that makes `text`, the catalog as JSON, the whole content
    /// of the catalog file.
    pub fn save_media_sources(&self, text: &str) -> (r: FileAction)
        ensures
            r@ == self@.save_media_sources(text@),
    {
        FileAction::Write(self.media_file_path.clone(), String::from_str(text))
    }

    /// The change that records `volume`.
    pub fn set_volume(&self, volume: u16) -> (r: FileAction)
        ensures
            r@ == self@.set_volume(volume),
    {
        FileAction::Write(self.volume_path.clone(), format_u16(volume))
    }

    /// The volume that the outcome of reading the volume file stands for.
    pub fn get_volume(read: Result<String, IoKind>) -> (r: Result<u16, HomeRadioError>)
        ensures
            r == volume_of(
                match read {
                    Ok(text) => Ok(text@),
                    Err(kind) => Err(kind),
                },
            ),
    {
        match read {
            Err(kind) => Err(HomeRadioError::Io(kind)),
            Ok(text) => if text.as_str().is_empty() {
                Ok(DEFAULT_VOLUME)
            } else {
                match parse_u16(text.as_str()) {
                    Some(v) => Ok(v),
                    None => Err(HomeRadioError::ParseInt),
                }
            },
        }
    }

    /// The change that forgets the link last played.
    pub fn remove_current_media_source(&self) -> (r: FileAction)
        ensures
            r@ == self@.remove_current_media_source(),
    {
        FileAction::Remove(self.currently_playing_path.clone())
    }

    /// Judges the outcome of [`FileBackend::remove_current_media_source`].
    pub fn current_media_source_removed(outcome: Result<(), IoKind>) -> (r: Result<
        (),
        HomeRadioError,
    >)
        ensures
            r == removal_of(outcome),
    {
        match outcome {
            Ok(()) => Ok(()),
            Err(IoKind::NotFound) => Ok(()),
            Err(kind) => Err(HomeRadioError::Io(kind)),
        }
    }

    /// The link last played that the outcome of reading its file stands for.
    pub fn get_current_media_source(read: Result<String, IoKind>) -> (r: Result<
        Option<String>,
        HomeRadioError,
    >)
        ensures
            match r {
                Ok(Some(url)) => Ok::<Option<Seq<char>>, HomeRadioError>(Some(url@)),
                Ok(None) => Ok(None),
                Err(e) => Err(e),
            } == current_source_of(
                match read {
                    Ok(text) => Ok(text@),
                    Err(kind) => Err(kind),
                },
            ),
    {
        match read {
            Ok(url) => if url.as_str().is_empty() {
                Ok(None)
            } else {
                Ok(Some(url))
            },
            Err(IoKind::NotFound) => Ok(None),
            Err(kind) => Err(HomeRadioError::Io(kind)),
        }
    }

    /// The change that records `url` as the link last played.
    pub fn set_current_media_source(&self, url: &str) -> (r: FileAction)
        ensures
            r@ == self@.set_current_media_source(url@),
    {
        FileAction::Write(self.currently_playing_path.clone(), String::from_str(url))
    }

    pub fn dir(&self) -> (r: &String)
        ensures
            r@ == self@.dir,
    {
        &self.dir
    }

    pub fn media_file_path(&self) -> (r: &String)
        ensures
            r@ == self@.media_file_path,
    {
        &self.media_file_path
    }

    pub fn volume_path(&self) -> (r: &String)
        ensures
            r@ == self@.volume_path,
    {
        &self.volume_path
    }

    pub fn currently_playing_path(&self) -> (r: &String)
        ensures
            r@ == self@.currently_playing_path,
    {
        &self.currently_playing_path
    }
}

/// The files after the creation plan: each of the three files is created
/// unless it exists.
pub proof fn lemma_creation_plan_unfolds(store: FileBackendView, disk: Disk)
    ensures
        apply_all(store.creation_plan(), disk) == FileActionView::CreateNew(
            store.currently_playing_path,
        ).apply(
            FileActionView::CreateNew(store.volume_path).apply(
                FileActionView::CreateNew(store.media_file_path).apply(disk),
            ),
        ),
{
    reveal_with_fuel(apply_all, 5);
}

/// Creating the files of a store discards nothing: every file that exists
/// keeps its content, however often the store is created on the same
/// directory, and a second creation changes nothing at all.
pub proof fn lemma_creation_keeps_content(store: FileBackendView, disk: Disk)
    ensures
        forall|path: Seq<char>| #[trigger]
            disk.contains_key(path) ==> read_on(apply_all(store.creation_plan(), disk), path)
                == read_on(disk, path),
        apply_all(store.creation_plan(), apply_all(store.creation_plan(), disk)) == apply_all(
            store.creation_plan(),
            disk,
        ),
{
    let once = apply_all(store.creation_plan(), disk);
    lemma_creation_plan_unfolds(store, disk);
    lemma_creation_plan_unfolds(store, once);
}

/// On a file system that fails for no reason but the state of the files,
/// no step of the creation plan ends the creation.
pub proof fn lemma_creation_step_accepts(action: FileActionView, disk: Disk)
    requires
        action is CreateDirAll || action is CreateNew,
    ensures
        creation_step_spec(action, action.outcome(disk)) is Ok,
{
}

/// A store whose volume file did not exist, or was empty, when the store
/// was created has the volume 100.
pub proof fn lemma_fresh_store_volume(store: FileBackendView, disk: Disk)
    requires
        read_on(disk, store.volume_path) is Err || read_on(disk, store.volume_path)
            == Ok::<Seq<char>, IoKind>(Seq::empty()),
    ensures
        store.volume_on(apply_all(store.creation_plan(), disk)) == Ok::<u16, HomeRadioError>(
            DEFAULT_VOLUME,
        ),
{
    lemma_creation_plan_unfolds(store, disk);
}

/// The volume that was recorded is the volume that is read, whatever the
/// files held before.
pub proof fn lemma_volume_round_trip(store: FileBackendView, disk: Disk, volume: u16)
    ensures
        store.volume_on(store.set_volume(volume).apply(disk)) == Ok::<u16, HomeRadioError>(volume),
{
    lemma_parse_decimal(volume);
}

/// A link that was recorded as the one last played is the link that is
/// read, unless it is the empty text, which stands for no link.
pub proof fn lemma_current_source_round_trip(store: FileBackendView, disk: Disk, url: Seq<char>)
    ensures
        store.current_source_on(store.set_current_media_source(url).apply(disk)) == Ok::<
            Option<Seq<char>>,
            HomeRadioError,
        >(
            if url.len() == 0 {
                None
            } else {
                Some(url)
            },
        ),
{
}

/// Once the link last played was forgotten, none is read; and forgetting
/// succeeds whether or not one was on record.
pub proof fn lemma_current_source_forgotten(store: FileBackendView, disk: Disk)
    ensures
        removal_of(store.remove_current_media_source().outcome(disk)) is Ok,
        store.current_source_on(store.remove_current_media_source().apply(disk)) == Ok::<
            Option<Seq<char>>,
            HomeRadioError,
        >(None),
{
}

/// The three files of a store are three files: no two of them share a
/// path.
pub proof fn lemma_layout_paths_differ(dir: Seq<char>)
    ensures
        layout(dir).media_file_path != layout(dir).volume_path,
        layout(dir).media_file_path != layout(dir).currently_playing_path,
        layout(dir).volume_path != layout(dir).currently_playing_path,
{
    reveal_strlit("media-sources.json");
    reveal_strlit("volume");
    reveal_strlit("currently-playing");
    let under = if dir.len() == 0 || dir.last() == '/' {
        dir
    } else {
        dir + seq!['/']
    };
    let at = under.len() as int;
    assert((under + "media-sources.json"@)[at] == 'm');
    assert((under + "volume"@)[at] == 'v');
    assert((under + "currently-playing"@)[at] == 'c');
}

/// Storing the catalog changes the catalog file and no other: the volume
/// and the link last played are read as before.
pub proof fn lemma_saving_touches_the_catalog_only(dir: Seq<char>, disk: Disk, text: Seq<char>)
    ensures
        ({
            let store = layout(dir);
            let after = store.save_media_sources(text).apply(disk);
            &&& read_on(after, store.media_file_path) == Ok::<Seq<char>, IoKind>(text)
            &&& store.volume_on(after) == store.volume_on(disk)
            &&& store.current_source_on(after) == store.current_source_on(disk)
        }),
{
    lemma_layout_paths_differ(dir);
}

} // verus!
