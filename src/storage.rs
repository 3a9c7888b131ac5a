use vstd::prelude::*;

use crate::auth::Uuid;

verus! {

#[verifier::external_type_specification]
#[verifier::external_body]
pub struct ExIoError(std::io::Error);

#[derive(Debug)]
pub enum ObjectError {
    /// A failure of the underlying I/O.
    IoError(std::io::Error),
    /// The object does not exist.
    NotFound,
}

impl ObjectError {
    /// The error for a failed open or remove of an object's file:
    /// `not_found` tells whether the file did not exist.
    pub fn from_io(error: std::io::Error, not_found: bool) -> (r: ObjectError)
        ensures
            not_found ==> r is NotFound,
            !not_found ==> r == (ObjectError::IoError(error)),
    {
        if not_found {
            ObjectError::NotFound
        } else {
            ObjectError::IoError(error)
        }
    }

    pub fn status_code(&self) -> (r: u16)
        ensures
            self is IoError ==> r == 500,
            self is NotFound ==> r == 404,
    {
        match self {
            ObjectError::IoError(..) => 500,
            ObjectError::NotFound => 404,
        }
    }

    pub fn custom_code(&self) -> (r: u8)
        ensures
            self is IoError ==> r == 1,
            self is NotFound ==> r == 2,
    {
        match self {
            ObjectError::IoError(..) => 1,
            ObjectError::NotFound => 2,
        }
    }
}

/// The metadata of a stored object: its size and digest are those that
/// the store reported.
#[derive(Debug)]
pub struct ObjectData {
    pub name: String,
    pub mime_type: String,
    pub size: u64,
    pub checksum_256: [u8; 32],
}

/// Where objects live: `temp_dir` holds scratch files, `data_dir` the
/// committed objects; both must be on the same filesystem.
#[derive(Debug)]
pub struct StorageConfig {
    pub state_dir: String,
    pub data_dir: String,
    pub temp_dir: String,
}

/// The textual form of an identifier, in uuid's hyphenated layout.
pub uninterp spec fn uuid_text(value: u128) -> Seq<char>;

/// Relies on uuid's `Hyphenated` display: the text depends on the value
/// alone.
#[verifier::external_body]
pub(crate) fn uuid_hyphenated(id: Uuid) -> (r: String)
    ensures
        r@ == uuid_text(id.value),
{
    uuid::Uuid::from_u128(id.value).hyphenated().to_string()
}

/// `name` inside directory `dir`, with `/` as the separator: an absolute
/// name stands for itself, and a separator is added only where `dir` does
/// not end in one.
pub open spec fn join_path(dir: Seq<char>, name: Seq<char>) -> Seq<char> {
    if name.len() > 0 && name[0] == '/' {
        name
    } else if dir.len() == 0 || dir.last() == '/' {
        dir + name
    } else {
        dir + seq!['/'] + name
    }
}

/// The name of an object's scratch file.
pub open spec fn scratch_name(id: Uuid) -> Seq<char> {
    uuid_text(id.value) + "-incomplete"@
}

/// The path of `name` inside directory `dir`.
pub fn join(dir: &String, name: &String) -> (r: String)
    ensures
        r@ == join_path(dir@, name@),
{
    let name_len = name.as_str().unicode_len();
    if name_len != 0 && name.as_str().get_char(0) == '/' {
        return name.clone();
    }
    let len = dir.as_str().unicode_len();
    let mut r = dir.clone();
    if len == 0 || dir.as_str().get_char(len - 1) == '/' {
        r.append(name.as_str());
    } else {
        proof {
            reveal_strlit("/");
        }
        r.append("/");
        r.append(name.as_str());
        assert(r@ == dir@ + seq!['/'] + name@);
    }
    r
}

/// A directory named in the configuration.
pub struct ResolvedPath(pub String);

impl ResolvedPath {
    /// The path of `name` inside this directory.
    pub fn join(&self, name: &String) -> (r: String)
        ensures
            r@ == join_path(self.0@, name@),
    {
        join(&self.0, name)
    }
}

/// The read-buffer capacity for an object of `file_size` bytes: larger
/// objects get larger buffers, and an unknown size gets the default.
pub open spec fn capacity_for(file_size: Option<u64>) -> u64 {
    match file_size {
        Some(s) => if s >= 1024 * 1024 * 1024 {
            (8 * 1024 * 1024) as u64
        } else if s >= 8 * 1024 * 1024 {
            (1024 * 1024) as u64
        } else if s >= 1024 * 1024 {
            (128 * 1024) as u64
        } else {
            (8 * 1024) as u64
        },
        None => (8 * 1024) as u64,
    }
}

pub fn buffer_cap(file_size: Option<u64>) -> (r: u64)
    ensures
        r == capacity_for(file_size),
{
    let default_cap: u64 = 8 * 1024;
    match file_size {
        Some(file_size) => {
            if file_size >= 1024 * 1024 * 1024 {
                8 * 1024 * 1024
            } else if file_size >= 8 * 1024 * 1024 {
                1024 * 1024
            } else if file_size >= 1024 * 1024 {
                128 * 1024
            } else {
                default_cap
            }
        },
        None => default_cap,
    }
}

/// What a fetch hands back once the object's file was opened, given its
/// size where known, or the error and whether the file did not exist: the
/// read-buffer capacity, or the error.
pub fn fetch_outcome(opened: Result<Option<u64>, (std::io::Error, bool)>) -> (r: Result<
    u64,
    ObjectError,
>)
    ensures
        opened matches Ok(size) ==> r == Ok::<u64, ObjectError>(capacity_for(size)),
        opened matches Err((_, true)) ==> (r matches Err(e) && e is NotFound),
        opened matches Err((e, false)) ==> r == Err::<u64, ObjectError>(ObjectError::IoError(e)),
{
    match opened {
        Ok(size) => Ok(buffer_cap(size)),
        Err((e, not_found)) => Err(ObjectError::from_io(e, not_found)),
    }
}

/// What a delete reports once the object's file was removed, or the error
/// and whether the file did not exist.
pub fn delete_outcome(removed: Result<(), (std::io::Error, bool)>) -> (r: Result<(), ObjectError>)
    ensures
        removed is Ok ==> r is Ok,
        removed matches Err((_, true)) ==> (r matches Err(e) && e is NotFound),
        removed matches Err((e, false)) ==> r == Err::<(), ObjectError>(ObjectError::IoError(e)),
{
    match removed {
        Ok(()) => Ok(()),
        Err((e, not_found)) => Err(ObjectError::from_io(e, not_found)),
    }
}

/// Stores objects as files named by their identifier.
pub struct ObjectManager {
    data_dir: String,
    temp_dir: String,
}

impl ObjectManager {
    pub closed spec fn data_dir(&self) -> Seq<char> {
        self.data_dir@
    }

    pub closed spec fn temp_dir(&self) -> Seq<char> {
        self.temp_dir@
    }

    pub fn new(cfg: &StorageConfig) -> (r: ObjectManager)
        ensures
            r.data_dir() == cfg.data_dir@,
            r.temp_dir() == cfg.temp_dir@,
    {
        ObjectManager { data_dir: cfg.data_dir.clone(), temp_dir: cfg.temp_dir.clone() }
    }

    /// Where the object `id` is visible once stored.
    pub fn object_path(&self, id: Uuid) -> (r: String)
        ensures
            r@ == join_path(self.data_dir(), uuid_text(id.value)),
    {
        join(&self.data_dir, &uuid_hyphenated(id))
    }

    /// Where the bytes of `id` are written before the commit.
    pub fn scratch_path(&self, id: Uuid) -> (r: String)
        ensures
            r@ == join_path(self.temp_dir(), scratch_name(id)),
    {
        let mut name = uuid_hyphenated(id);
        name.append("-incomplete");
        join(&self.temp_dir, &name)
    }
}

} // verus!
