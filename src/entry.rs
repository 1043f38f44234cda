use vstd::prelude::*;
use crate::error::Error;
use crate::identity::{id_high, id_low, split_identity};
use crate::stamp::{local_text, render_local, STAMP_LIMIT};

verus! {

/// Seconds from 1601-01-01T00:00:00Z to 1970-01-01T00:00:00Z.
pub const WINDOWS_EPOCH_OFFSET: i64 = 11_644_473_600;

/// Where a platform's file times count their seconds from.
#[derive(Debug, Clone, Copy, PartialEq, Eq)]
pub enum Origin {
    /// 1970-01-01T00:00:00Z.
    Unix,
    /// 1601-01-01T00:00:00Z.
    Windows,
}

/// Seconds since 1970-01-01T00:00:00Z of a file time counted from `origin`.
pub open spec fn unix_seconds(sec: int, origin: Origin) -> int {
    match origin {
        Origin::Unix => sec,
        Origin::Windows => sec - WINDOWS_EPOCH_OFFSET,
    }
}

/// The file time lies in the range that is rendered.
pub open spec fn renderable(sec: int, origin: Origin) -> bool {
    -STAMP_LIMIT <= unix_seconds(sec, origin) <= STAMP_LIMIT
}

/// Converts a file time counted from `origin` to one counted from
/// 1970-01-01T00:00:00Z, where it lies in the rendered range.
pub fn to_unix_seconds(sec: i64, origin: Origin) -> (r: Option<i64>)
    ensures
        r == if renderable(sec as int, origin) {
            Some(unix_seconds(sec as int, origin) as i64)
        } else {
            None::<i64>
        },
{
    match origin {
        Origin::Unix => {
            if -STAMP_LIMIT <= sec && sec <= STAMP_LIMIT {
                Some(sec)
            } else {
                None
            }
        },
        Origin::Windows => {
            if WINDOWS_EPOCH_OFFSET - STAMP_LIMIT <= sec && sec <= STAMP_LIMIT
                + WINDOWS_EPOCH_OFFSET {
                Some(sec - WINDOWS_EPOCH_OFFSET)
            } else {
                None
            }
        },
    }
}

/// Metadata of one file system object as the operating system reports it.
#[derive(Debug, Clone, Copy, PartialEq, Eq)]
pub struct RawMeta {
    /// The object is a directory, or a link to one.
    pub is_dir: bool,
    /// The path itself is a symbolic link; the other fields describe its target.
    pub is_link: bool,
    /// Creation time in seconds from the platform's origin, where reported.
    pub created: Option<i64>,
    /// Modification time in seconds from the platform's origin.
    pub modified: i64,
    /// Inode number or file index; 0 where the platform has none.
    pub identity: u64,
}

/// The creation time, with a missing one read as the origin itself.
pub open spec fn created_secs(m: RawMeta) -> int {
    match m.created {
        Some(c) => c as int,
        None => 0,
    }
}

pub open spec fn meta_renderable(m: RawMeta, origin: Origin) -> bool {
    renderable(created_secs(m), origin) && renderable(m.modified as int, origin)
}

/// `n` is `m` normalized: directory flag, creation and modification times in
/// local time, lower and upper half of the identity.
pub open spec fn normalized(m: RawMeta, origin: Origin, n: (bool, String, String, u32, u32)) -> bool {
    &&& n.0 == m.is_dir
    &&& local_text(n.1@, unix_seconds(created_secs(m), origin))
    &&& local_text(n.2@, unix_seconds(m.modified as int, origin))
    &&& n.3 == id_low(m.identity)
    &&& n.4 == id_high(m.identity)
}

/// Normalizes raw metadata; `None` where a time lies outside the rendered range.
pub fn get_meta(meta: &RawMeta, origin: Origin) -> (r: Option<(bool, String, String, u32, u32)>)
    ensures
        r is Some <==> meta_renderable(*meta, origin),
        r matches Some(n) ==> normalized(*meta, origin, n),
{
    let created: i64 = match meta.created {
        Some(c) => c,
        None => 0,
    };
    let c = match to_unix_seconds(created, origin) {
        Some(c) => c,
        None => {
            return None;
        },
    };
    let m = match to_unix_seconds(meta.modified, origin) {
        Some(m) => m,
        None => {
            return None;
        },
    };
    let ctime = render_local(c);
    let mtime = render_local(m);
    let (fid1, fid2) = split_identity(meta.identity);
    Some((meta.is_dir, ctime, mtime, fid1, fid2))
}

/// One file or directory, normalized.
#[derive(Debug)]
pub struct DiskEntry {
    pub path: String,
    /// Final path component; empty where there is none.
    pub name: String,
    pub is_dir: bool,
    /// Creation time, `YYYY-MM-DD HH:MM:SS ±HH:MM` in local time.
    pub ctime: String,
    /// Modification time, in the same form.
    pub mtime: String,
    /// Lower 32 bits of the file identity.
    pub fid1: u32,
    /// Upper 32 bits of the file identity.
    pub fid2: u32,
    /// `None` for a file; the listed children for a directory.
    pub sub: Option<Vec<DiskEntry>>,
}

/// The fields of `e` other than `sub` are those of the object at `path`
/// named `name` with metadata `m`.
pub open spec fn entry_fields(
    e: DiskEntry,
    path: Seq<char>,
    name: Seq<char>,
    m: RawMeta,
    origin: Origin,
) -> bool {
    &&& e.path@ == path
    &&& e.name@ == name
    &&& normalized(m, origin, (e.is_dir, e.ctime, e.mtime, e.fid1, e.fid2))
}

/// The entry for a single path, without its children: a directory gets an
/// empty `sub`, a file none. Fails where a time cannot be rendered.
pub fn entry_from_meta(path: String, name: String, meta: &RawMeta, origin: Origin) -> (r: Result<
    DiskEntry,
    Error,
>)
    ensures
        r is Ok <==> meta_renderable(*meta, origin),
        r matches Err(e) ==> e is Etc,
        r matches Ok(e) ==> {
            &&& entry_fields(e, path@, name@, *meta, origin)
            &&& (e.sub is None <==> !meta.is_dir)
            &&& e.sub matches Some(v) ==> v@.len() == 0
        },
{
    match get_meta(meta, origin) {
        Some((is_dir, ctime, mtime, fid1, fid2)) => Ok(
            DiskEntry {
                path,
                name,
                is_dir,
                ctime,
                mtime,
                fid1,
                fid2,
                sub: if !is_dir {
                    None
                } else {
                    Some(Vec::new())
                },
            },
        ),
        None => Err(Error::Etc(String::from_str("time out of range"))),
    }
}

} // verus!
