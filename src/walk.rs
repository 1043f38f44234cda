use vstd::prelude::*;
use crate::entry::{entry_fields, get_meta, meta_renderable, DiskEntry, Origin, RawMeta};
use crate::error::Error;
use crate::identity::identity_round_trip;

verus! {

/// How far below the listed directory a traversal goes.
#[derive(Debug, Clone, Copy, PartialEq, Eq)]
pub enum Mode {
    /// Children of directories are listed this many levels down; `Levels(0)`
    /// lists the directory itself only.
    Levels(u8),
    /// Every directory is listed, however deep.
    Recursive,
}

impl Mode {
    /// The mode for the children of a listed directory; `None` where they are
    /// not listed.
    pub open spec fn next(self) -> Option<Mode> {
        match self {
            Mode::Levels(n) => if n == 0 {
                None
            } else {
                Some(Mode::Levels((n - 1) as u8))
            },
            Mode::Recursive => Some(Mode::Recursive),
        }
    }

    pub fn descend(&self) -> (r: Option<Mode>)
        ensures
            r == self.next(),
    {
        match self {
            Mode::Levels(n) => if *n == 0 {
                None
            } else {
                Some(Mode::Levels(*n - 1))
            },
            Mode::Recursive => Some(Mode::Recursive),
        }
    }

    /// The mode for a recursive flag and a depth bound; both together are a
    /// configuration error.
    pub fn from_flags(recursive: bool, lvs: u8) -> (r: Result<Mode, Error>)
        ensures
            r is Err <==> recursive && lvs > 0,
            r matches Err(e) ==> e is Etc,
            r matches Ok(m) ==> m == if recursive {
                Mode::Recursive
            } else {
                Mode::Levels(lvs)
            },
    {
        if recursive && lvs > 0 {
            Err(Error::Etc(String::from_str("recursive listing with a depth bound")))
        } else if recursive {
            Ok(Mode::Recursive)
        } else {
            Ok(Mode::Levels(lvs))
        }
    }

    /// A bounded listing, with no bound meaning no level below the directory.
    pub fn levels(lvs: Option<u8>) -> (r: Mode)
        ensures
            r == Mode::Levels(
                match lvs {
                    Some(u) => u,
                    None => 0,
                },
            ),
    {
        match lvs {
            Some(u) => Mode::Levels(u),
            None => Mode::Levels(0),
        }
    }
}

/// The mode in which the children of an object with metadata `m` are listed
/// under `mode`; `None` where they are not: for files, for links, which are
/// never followed, and below the mode's depth.
pub open spec fn child_mode(m: RawMeta, mode: Mode) -> Option<Mode> {
    if m.is_dir && !m.is_link {
        mode.next()
    } else {
        None
    }
}

/// Whether, and how, the children of an object with metadata `meta` are listed.
pub fn descend_into(meta: &RawMeta, mode: Mode) -> (r: Option<Mode>)
    ensures
        r == child_mode(*meta, mode),
{
    if meta.is_dir && !meta.is_link {
        mode.descend()
    } else {
        None
    }
}

/// One child of a listed directory as the operating system gave it:
/// `meta` is `None` where its metadata could not be read, and `contents`
/// holds its own children where it is a directory that was listed.
#[derive(Debug)]
pub struct RawChild {
    pub path: String,
    pub name: String,
    pub meta: Option<RawMeta>,
    pub contents: Option<Vec<RawChild>>,
}

/// The child yields an entry: its metadata was read and can be rendered, and
/// where the mode lists its children, they were listed.
pub open spec fn kept(c: RawChild, origin: Origin, mode: Mode) -> bool {
    match c.meta {
        None => false,
        Some(m) => meta_renderable(m, origin) && (child_mode(m, mode) is Some
            ==> c.contents is Some),
    }
}

/// `e` is the entry for the child `c` listed under `mode`.
pub open spec fn entry_fits(e: DiskEntry, c: RawChild, origin: Origin, mode: Mode) -> bool
    decreases c,
{
    match c.meta {
        None => false,
        Some(m) => {
            &&& entry_fields(e, c.path@, c.name@, m, origin)
            &&& if !m.is_dir {
                e.sub is None
            } else {
                match child_mode(m, mode) {
                    None => e.sub matches Some(v) && v@.len() == 0,
                    Some(next) => match (e.sub, c.contents) {
                        (Some(v), Some(cs)) => level_fits(v@, cs@, origin, next),
                        _ => false,
                    },
                }
            }
        },
    }
}

/// `es` are the entries, in order, of the kept children among `cs`.
pub open spec fn level_fits(es: Seq<DiskEntry>, cs: Seq<RawChild>, origin: Origin, mode: Mode) -> bool
    decreases cs,
{
    if cs.len() == 0 {
        es.len() == 0
    } else if kept(cs.last(), origin, mode) {
        &&& es.len() > 0
        &&& entry_fits(es.last(), cs.last(), origin, mode)
        &&& level_fits(es.drop_last(), cs.drop_last(), origin, mode)
    } else {
        level_fits(es, cs.drop_last(), origin, mode)
    }
}

/// Builds the entries of a listed directory from its children: a child whose
/// metadata is missing or cannot be rendered is left out, as is a directory
/// whose children the mode asks for but which could not be listed. Directories
/// below the mode's depth get an empty `sub`.
pub fn build_entries(children: &Vec<RawChild>, origin: Origin, mode: Mode) -> (r: Vec<DiskEntry>)
    ensures
        level_fits(r@, children@, origin, mode),
    decreases children,
{
    let mut out: Vec<DiskEntry> = Vec::new();
    let mut i: usize = 0;
    while i < children.len()
        invariant
            i <= children.len(),
            level_fits(out@, children@.subrange(0, i as int), origin, mode),
        decreases children.len() - i,
    {
        let c = &children[i];
        let ghost before = out@;
        proof {
            assert(children@.subrange(0, i + 1).drop_last() =~= children@.subrange(0, i as int));
            assert(children@.subrange(0, i + 1).last() == children@[i as int]);
        }
        if let Some(m) = &c.meta {
            if let Some((is_dir, ctime, mtime, fid1, fid2)) = get_meta(m, origin) {
                let sub: Option<Option<Vec<DiskEntry>>> = if !is_dir {
                    Some(None)
                } else {
                    match descend_into(m, mode) {
                        None => Some(Some(Vec::new())),
                        Some(next) => match &c.contents {
                            None => None,
                            Some(cs) => {
                                proof {
                                    assert(decreases_to!(children => children@[i as int]));
                                }
                                Some(Some(build_entries(cs, origin, next)))
                            },
                        },
                    }
                };
                if let Some(sub) = sub {
                    let e = DiskEntry {
                        path: c.path.clone(),
                        name: c.name.clone(),
                        is_dir,
                        ctime,
                        mtime,
                        fid1,
                        fid2,
                        sub,
                    };
                    assert(entry_fits(e, children@[i as int], origin, mode));
                    out.push(e);
                    assert(out@.drop_last() =~= before);
                }
            }
        }
        i += 1;
    }
    proof {
        assert(children@.subrange(0, children.len() as int) =~= children@);
    }
    out
}

/// How many of `cs` yield an entry.
pub open spec fn kept_count(cs: Seq<RawChild>, origin: Origin, mode: Mode) -> nat
    decreases cs.len(),
{
    if cs.len() == 0 {
        0
    } else {
        kept_count(cs.drop_last(), origin, mode) + if kept(cs.last(), origin, mode) {
            1nat
        } else {
            0nat
        }
    }
}

/// Every entry at depth `d + 1` below the listed directory (the listed
/// directory's own children being at depth 1) has no listed children.
pub open spec fn nested_within(es: Seq<DiskEntry>, d: nat) -> bool
    decreases d,
{
    forall|i: int|
        0 <= i < es.len() ==> match #[trigger] es[i].sub {
            None => true,
            Some(v) => if d == 0 {
                v@.len() == 0
            } else {
                nested_within(v@, (d - 1) as nat)
            },
        }
}

/// A listing holds one entry per child that yields one.
pub proof fn listing_counts_kept_children(
    es: Seq<DiskEntry>,
    cs: Seq<RawChild>,
    origin: Origin,
    mode: Mode,
)
    requires
        level_fits(es, cs, origin, mode),
    ensures
        es.len() == kept_count(cs, origin, mode),
    decreases cs.len(),
{
    if cs.len() > 0 {
        if kept(cs.last(), origin, mode) {
            listing_counts_kept_children(es.drop_last(), cs.drop_last(), origin, mode);
        } else {
            listing_counts_kept_children(es, cs.drop_last(), origin, mode);
        }
    }
}

/// Where every child of a directory is readable, its flat listing holds
/// exactly its children, in the order given, each with its own path, name and
/// directory flag.
pub proof fn flat_listing_is_children(es: Seq<DiskEntry>, cs: Seq<RawChild>, origin: Origin)
    requires
        level_fits(es, cs, origin, Mode::Levels(0)),
        forall|i: int| 0 <= i < cs.len() ==> #[trigger] kept(cs[i], origin, Mode::Levels(0)),
    ensures
        es.len() == cs.len(),
        forall|i: int|
            0 <= i < cs.len() ==> {
                &&& (#[trigger] es[i]).path@ == cs[i].path@
                &&& es[i].name@ == cs[i].name@
                &&& cs[i].meta matches Some(m) && es[i].is_dir == m.is_dir
            },
    decreases cs.len(),
{
    if cs.len() > 0 {
        assert forall|i: int| 0 <= i < cs.drop_last().len() implies #[trigger] kept(
            cs.drop_last()[i],
            origin,
            Mode::Levels(0),
        ) by {
            assert(cs.drop_last()[i] == cs[i]);
        }
        assert(kept(cs[cs.len() - 1], origin, Mode::Levels(0)));
        flat_listing_is_children(es.drop_last(), cs.drop_last(), origin);
        assert forall|i: int| 0 <= i < cs.len() implies {
            &&& (#[trigger] es[i]).path@ == cs[i].path@
            &&& es[i].name@ == cs[i].name@
            &&& cs[i].meta matches Some(m) && es[i].is_dir == m.is_dir
        } by {
            if i < cs.len() - 1 {
                assert(es.drop_last()[i] == es[i]);
                assert(cs.drop_last()[i] == cs[i]);
            } else {
                assert(entry_fits(es.last(), cs.last(), origin, Mode::Levels(0)));
            }
        }
    }
}

/// A flat listing gives every directory an empty `sub` and every file none.
pub proof fn flat_listing_stops_at_children(es: Seq<DiskEntry>, cs: Seq<RawChild>, origin: Origin)
    requires
        level_fits(es, cs, origin, Mode::Levels(0)),
    ensures
        forall|i: int|
            0 <= i < es.len() ==> {
                &&& ((#[trigger] es[i]).sub is None <==> !es[i].is_dir)
                &&& es[i].sub matches Some(v) ==> v@.len() == 0
            },
    decreases cs.len(),
{
    if cs.len() > 0 {
        if kept(cs.last(), origin, Mode::Levels(0)) {
            flat_listing_stops_at_children(es.drop_last(), cs.drop_last(), origin);
            assert forall|i: int| 0 <= i < es.len() implies {
                &&& ((#[trigger] es[i]).sub is None <==> !es[i].is_dir)
                &&& es[i].sub matches Some(v) ==> v@.len() == 0
            } by {
                if i < es.len() - 1 {
                    assert(es.drop_last()[i] == es[i]);
                } else {
                    assert(entry_fits(es.last(), cs.last(), origin, Mode::Levels(0)));
                }
            }
        } else {
            flat_listing_stops_at_children(es, cs.drop_last(), origin);
        }
    }
}

/// A listing bounded by `n` levels has no listed children below depth `n + 1`.
pub proof fn bounded_listing_depth(es: Seq<DiskEntry>, cs: Seq<RawChild>, origin: Origin, n: u8)
    requires
        level_fits(es, cs, origin, Mode::Levels(n)),
    ensures
        nested_within(es, n as nat),
    decreases n, cs.len(),
{
    if cs.len() > 0 {
        if kept(cs.last(), origin, Mode::Levels(n)) {
            bounded_listing_depth(es.drop_last(), cs.drop_last(), origin, n);
            let e = es.last();
            let c = cs.last();
            assert(entry_fits(e, c, origin, Mode::Levels(n)));
            if n > 0 && e.sub is Some {
                let m = c.meta->Some_0;
                if m.is_dir && !m.is_link {
                    bounded_listing_depth(
                        e.sub->Some_0@,
                        c.contents->Some_0@,
                        origin,
                        (n - 1) as u8,
                    );
                }
            }
            assert forall|i: int| 0 <= i < es.len() implies match #[trigger] es[i].sub {
                None => true,
                Some(v) => if n == 0 {
                    v@.len() == 0
                } else {
                    nested_within(v@, (n - 1) as nat)
                },
            } by {
                if i < es.len() - 1 {
                    assert(es.drop_last()[i] == es[i]);
                } else {
                    assert(es[i] == e);
                }
            }
        } else {
            bounded_listing_depth(es, cs.drop_last(), origin, n);
        }
    }
}

/// A recursive listing lists the children of every directory it reaches that
/// is not a link: the directory's entry holds one entry per child of it that
/// yields one, at any depth.
pub proof fn recursive_listing_never_stops(e: DiskEntry, c: RawChild, origin: Origin)
    requires
        entry_fits(e, c, origin, Mode::Recursive),
        e.is_dir,
        c.meta matches Some(m) && !m.is_link,
    ensures
        e.sub is Some,
        c.contents is Some,
        e.sub->Some_0@.len() == kept_count(c.contents->Some_0@, origin, Mode::Recursive),
{
    listing_counts_kept_children(e.sub->Some_0@, c.contents->Some_0@, origin, Mode::Recursive);
}

/// Above its bound a bounded listing stops at no directory: the entry of a
/// directory that is not a link holds one entry per child of it that yields one.
pub proof fn bounded_listing_reaches_bound(e: DiskEntry, c: RawChild, origin: Origin, n: u8)
    requires
        entry_fits(e, c, origin, Mode::Levels(n)),
        n > 0,
        e.is_dir,
        c.meta matches Some(m) && !m.is_link,
    ensures
        e.sub is Some,
        c.contents is Some,
        e.sub->Some_0@.len() == kept_count(c.contents->Some_0@, origin, Mode::Levels((n - 1) as u8)),
{
    listing_counts_kept_children(
        e.sub->Some_0@,
        c.contents->Some_0@,
        origin,
        Mode::Levels((n - 1) as u8),
    );
}

/// The identity of the object behind an entry is rebuilt from the entry as
/// `fid2 << 32 | fid1`.
pub proof fn entry_identity_round_trip(e: DiskEntry, c: RawChild, origin: Origin, mode: Mode)
    requires
        entry_fits(e, c, origin, mode),
    ensures
        c.meta matches Some(m) && ((e.fid2 as u64) << 32u64) | (e.fid1 as u64) == m.identity,
{
    identity_round_trip(c.meta->Some_0.identity);
}

} // verus!
