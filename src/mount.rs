//! `mount(8)`-style option strings, read into `mount(2)` flags and filesystem data.
use vstd::prelude::*;
use vstd::string::*;

use crate::text::{find_either, has_char, lemma_scan_to_bounds, same_text, scan_to};
use crate::KernelVersion;

verus! {

/// The flags argument of `mount(2)`.
#[derive(Debug, Clone, Copy, PartialEq, Eq, Structural)]
pub struct MountFlags {
    pub bits: u64,
}

impl MountFlags {
    pub const MS_RDONLY: u64 = 0x1;
    pub const MS_NOSUID: u64 = 0x2;
    pub const MS_NODEV: u64 = 0x4;
    pub const MS_NOEXEC: u64 = 0x8;
    pub const MS_SYNCHRONOUS: u64 = 0x10;
    pub const MS_REMOUNT: u64 = 0x20;
    pub const MS_MANDLOCK: u64 = 0x40;
    pub const MS_DIRSYNC: u64 = 0x80;
    pub const MS_NOATIME: u64 = 0x400;
    pub const MS_NODIRATIME: u64 = 0x800;
    pub const MS_BIND: u64 = 0x1000;
    pub const MS_MOVE: u64 = 0x2000;
    pub const MS_REC: u64 = 0x4000;
    pub const MS_SILENT: u64 = 0x8000;
    pub const MS_POSIXACL: u64 = 0x1_0000;
    pub const MS_UNBINDABLE: u64 = 0x2_0000;
    pub const MS_SLAVE: u64 = 0x8_0000;
    pub const MS_RELATIME: u64 = 0x20_0000;
    pub const MS_I_VERSION: u64 = 0x80_0000;
    pub const MS_STRICTATIME: u64 = 0x100_0000;
    pub const MS_LAZYTIME: u64 = 0x200_0000;

    /// No flag set.
    pub fn empty() -> (r: Self)
        ensures
            r.bits == 0,
    {
        MountFlags { bits: 0 }
    }

    /// The flags with exactly these bits.
    pub fn from_bits_retain(bits: u64) -> (r: Self)
        ensures
            r.bits == bits,
    {
        MountFlags { bits }
    }

    pub fn bits(&self) -> (r: u64)
        ensures
            r == self.bits,
    {
        self.bits
    }

    /// Are all the bits of `flags` set?
    pub fn contains(&self, flags: u64) -> (r: bool)
        ensures
            r == (self.bits & flags == flags),
    {
        self.bits & flags == flags
    }
}

/// Why an option string was refused.
#[derive(Debug, Clone, Copy, PartialEq, Eq, Structural)]
pub enum MountOptError {
    /// An option between two commas (or at an end) is empty.
    EmptyOption,
    /// `mand` was asked for, but the kernel no longer has mandatory locking (5.15 on).
    MandRemoved,
}

/// What a known option does.
#[derive(Debug, Clone, Copy, PartialEq, Eq, Structural)]
pub enum OptionKind {
    /// It sets the bits `set` and clears the bits `clear`.
    Flags { set: u64, clear: u64 },
    /// `mand`: mandatory locking, which recent kernels lack.
    Mand,
    /// Not a flag: it is handed to the filesystem as data.
    Data,
}

/// What the option `o` (trimmed, in lower case) does.
pub open spec fn option_kind(o: Seq<char>) -> OptionKind {
    if o == "ro"@ {
        OptionKind::Flags { set: MountFlags::MS_RDONLY, clear: 0 }
    } else if o == "rw"@ {
        OptionKind::Flags { set: 0, clear: MountFlags::MS_RDONLY }
    } else if o == "nosuid"@ {
        OptionKind::Flags { set: MountFlags::MS_NOSUID, clear: 0 }
    } else if o == "suid"@ {
        OptionKind::Flags { set: 0, clear: MountFlags::MS_NOSUID }
    } else if o == "nodev"@ {
        OptionKind::Flags { set: MountFlags::MS_NODEV, clear: 0 }
    } else if o == "dev"@ {
        OptionKind::Flags { set: 0, clear: MountFlags::MS_NODEV }
    } else if o == "noexec"@ {
        OptionKind::Flags { set: MountFlags::MS_NOEXEC, clear: 0 }
    } else if o == "exec"@ {
        OptionKind::Flags { set: 0, clear: MountFlags::MS_NOEXEC }
    } else if o == "sync"@ {
        OptionKind::Flags { set: MountFlags::MS_SYNCHRONOUS, clear: 0 }
    } else if o == "async"@ {
        OptionKind::Flags { set: 0, clear: MountFlags::MS_SYNCHRONOUS }
    } else if o == "remount"@ {
        OptionKind::Flags { set: MountFlags::MS_REMOUNT, clear: 0 }
    } else if o == "move"@ {
        OptionKind::Flags { set: MountFlags::MS_MOVE, clear: 0 }
    } else if o == "bind"@ {
        OptionKind::Flags { set: MountFlags::MS_BIND, clear: 0 }
    } else if o == "rbind"@ {
        OptionKind::Flags { set: MountFlags::MS_BIND | MountFlags::MS_REC, clear: 0 }
    } else if o == "dirsync"@ {
        OptionKind::Flags { set: MountFlags::MS_DIRSYNC, clear: 0 }
    } else if o == "noatime"@ {
        OptionKind::Flags { set: MountFlags::MS_NOATIME, clear: 0 }
    } else if o == "atime"@ {
        OptionKind::Flags { set: 0, clear: MountFlags::MS_NOATIME }
    } else if o == "nodiratime"@ {
        OptionKind::Flags { set: MountFlags::MS_NODIRATIME, clear: 0 }
    } else if o == "diratime"@ {
        OptionKind::Flags { set: 0, clear: MountFlags::MS_NODIRATIME }
    } else if o == "relatime"@ {
        OptionKind::Flags { set: MountFlags::MS_RELATIME, clear: 0 }
    } else if o == "norelatime"@ {
        OptionKind::Flags { set: 0, clear: MountFlags::MS_RELATIME }
    } else if o == "strictatime"@ {
        OptionKind::Flags { set: MountFlags::MS_STRICTATIME, clear: 0 }
    } else if o == "nostrictatime"@ {
        OptionKind::Flags { set: 0, clear: MountFlags::MS_STRICTATIME }
    } else if o == "lazytime"@ {
        OptionKind::Flags { set: MountFlags::MS_LAZYTIME, clear: 0 }
    } else if o == "nolazytime"@ {
        OptionKind::Flags { set: 0, clear: MountFlags::MS_LAZYTIME }
    } else if o == "mand"@ {
        OptionKind::Mand
    } else if o == "nomand"@ {
        OptionKind::Flags { set: 0, clear: MountFlags::MS_MANDLOCK }
    } else if o == "acl"@ {
        OptionKind::Flags { set: MountFlags::MS_POSIXACL, clear: 0 }
    } else if o == "noacl"@ {
        OptionKind::Flags { set: 0, clear: MountFlags::MS_POSIXACL }
    } else if o == "silent"@ {
        OptionKind::Flags { set: MountFlags::MS_SILENT, clear: 0 }
    } else if o == "iversion"@ {
        OptionKind::Flags { set: MountFlags::MS_I_VERSION, clear: 0 }
    } else if o == "noiversion"@ {
        OptionKind::Flags { set: 0, clear: MountFlags::MS_I_VERSION }
    } else if o == "slave"@ {
        OptionKind::Flags { set: MountFlags::MS_SLAVE, clear: 0 }
    } else if o == "rslave"@ {
        OptionKind::Flags { set: MountFlags::MS_SLAVE | MountFlags::MS_REC, clear: 0 }
    } else if o == "unbindable"@ {
        OptionKind::Flags { set: MountFlags::MS_UNBINDABLE, clear: 0 }
    } else if o == "runbindable"@ {
        OptionKind::Flags { set: MountFlags::MS_UNBINDABLE | MountFlags::MS_REC, clear: 0 }
    } else if o == "defaults"@ {
        // util-linux's defaults: rw,suid,dev,exec,relatime,async
        OptionKind::Flags {
            set: MountFlags::MS_RELATIME,
            clear: MountFlags::MS_RDONLY | MountFlags::MS_NOSUID | MountFlags::MS_NODEV
                | MountFlags::MS_NOEXEC | MountFlags::MS_SYNCHRONOUS,
        }
    } else {
        OptionKind::Data
    }
}

/// Finds what the option `o` does.
pub fn option_kind_of(o: &str) -> (r: OptionKind)
    ensures
        r == option_kind(o@),
{
    if same_text(o, "ro") {
        OptionKind::Flags { set: MountFlags::MS_RDONLY, clear: 0 }
    } else if same_text(o, "rw") {
        OptionKind::Flags { set: 0, clear: MountFlags::MS_RDONLY }
    } else if same_text(o, "nosuid") {
        OptionKind::Flags { set: MountFlags::MS_NOSUID, clear: 0 }
    } else if same_text(o, "suid") {
        OptionKind::Flags { set: 0, clear: MountFlags::MS_NOSUID }
    } else if same_text(o, "nodev") {
        OptionKind::Flags { set: MountFlags::MS_NODEV, clear: 0 }
    } else if same_text(o, "dev") {
        OptionKind::Flags { set: 0, clear: MountFlags::MS_NODEV }
    } else if same_text(o, "noexec") {
        OptionKind::Flags { set: MountFlags::MS_NOEXEC, clear: 0 }
    } else if same_text(o, "exec") {
        OptionKind::Flags { set: 0, clear: MountFlags::MS_NOEXEC }
    } else if same_text(o, "sync") {
        OptionKind::Flags { set: MountFlags::MS_SYNCHRONOUS, clear: 0 }
    } else if same_text(o, "async") {
        OptionKind::Flags { set: 0, clear: MountFlags::MS_SYNCHRONOUS }
    } else if same_text(o, "remount") {
        OptionKind::Flags { set: MountFlags::MS_REMOUNT, clear: 0 }
    } else if same_text(o, "move") {
        OptionKind::Flags { set: MountFlags::MS_MOVE, clear: 0 }
    } else if same_text(o, "bind") {
        OptionKind::Flags { set: MountFlags::MS_BIND, clear: 0 }
    } else if same_text(o, "rbind") {
        OptionKind::Flags { set: MountFlags::MS_BIND | MountFlags::MS_REC, clear: 0 }
    } else if same_text(o, "dirsync") {
        OptionKind::Flags { set: MountFlags::MS_DIRSYNC, clear: 0 }
    } else if same_text(o, "noatime") {
        OptionKind::Flags { set: MountFlags::MS_NOATIME, clear: 0 }
    } else if same_text(o, "atime") {
        OptionKind::Flags { set: 0, clear: MountFlags::MS_NOATIME }
    } else if same_text(o, "nodiratime") {
        OptionKind::Flags { set: MountFlags::MS_NODIRATIME, clear: 0 }
    } else if same_text(o, "diratime") {
        OptionKind::Flags { set: 0, clear: MountFlags::MS_NODIRATIME }
    } else if same_text(o, "relatime") {
        OptionKind::Flags { set: MountFlags::MS_RELATIME, clear: 0 }
    } else if same_text(o, "norelatime") {
        OptionKind::Flags { set: 0, clear: MountFlags::MS_RELATIME }
    } else if same_text(o, "strictatime") {
        OptionKind::Flags { set: MountFlags::MS_STRICTATIME, clear: 0 }
    } else if same_text(o, "nostrictatime") {
        OptionKind::Flags { set: 0, clear: MountFlags::MS_STRICTATIME }
    } else if same_text(o, "lazytime") {
        OptionKind::Flags { set: MountFlags::MS_LAZYTIME, clear: 0 }
    } else if same_text(o, "nolazytime") {
        OptionKind::Flags { set: 0, clear: MountFlags::MS_LAZYTIME }
    } else if same_text(o, "mand") {
        OptionKind::Mand
    } else if same_text(o, "nomand") {
        OptionKind::Flags { set: 0, clear: MountFlags::MS_MANDLOCK }
    } else if same_text(o, "acl") {
        OptionKind::Flags { set: MountFlags::MS_POSIXACL, clear: 0 }
    } else if same_text(o, "noacl") {
        OptionKind::Flags { set: 0, clear: MountFlags::MS_POSIXACL }
    } else if same_text(o, "silent") {
        OptionKind::Flags { set: MountFlags::MS_SILENT, clear: 0 }
    } else if same_text(o, "iversion") {
        OptionKind::Flags { set: MountFlags::MS_I_VERSION, clear: 0 }
    } else if same_text(o, "noiversion") {
        OptionKind::Flags { set: 0, clear: MountFlags::MS_I_VERSION }
    } else if same_text(o, "slave") {
        OptionKind::Flags { set: MountFlags::MS_SLAVE, clear: 0 }
    } else if same_text(o, "rslave") {
        OptionKind::Flags { set: MountFlags::MS_SLAVE | MountFlags::MS_REC, clear: 0 }
    } else if same_text(o, "unbindable") {
        OptionKind::Flags { set: MountFlags::MS_UNBINDABLE, clear: 0 }
    } else if same_text(o, "runbindable") {
        OptionKind::Flags { set: MountFlags::MS_UNBINDABLE | MountFlags::MS_REC, clear: 0 }
    } else if same_text(o, "defaults") {
        OptionKind::Flags {
            set: MountFlags::MS_RELATIME,
            clear: MountFlags::MS_RDONLY | MountFlags::MS_NOSUID | MountFlags::MS_NODEV
                | MountFlags::MS_NOEXEC | MountFlags::MS_SYNCHRONOUS,
        }
    } else {
        OptionKind::Data
    }
}

/// Is `c` white space by Unicode's `White_Space` property?
pub open spec fn is_white_space(c: char) -> bool {
    ('\u{9}' <= c && c <= '\u{d}') || c == ' ' || c == '\u{85}' || c == '\u{a0}' || c
        == '\u{1680}' || ('\u{2000}' <= c && c <= '\u{200a}') || c == '\u{2028}' || c
        == '\u{2029}' || c == '\u{202f}' || c == '\u{205f}' || c == '\u{3000}'
}

/// `s` without its leading white space.
pub open spec fn trim_start_of(s: Seq<char>) -> Seq<char>
    decreases s.len(),
{
    if s.len() > 0 && is_white_space(s[0]) {
        trim_start_of(s.drop_first())
    } else {
        s
    }
}

/// `s` without its trailing white space.
pub open spec fn trim_end_of(s: Seq<char>) -> Seq<char>
    decreases s.len(),
{
    if s.len() > 0 && is_white_space(s.last()) {
        trim_end_of(s.drop_last())
    } else {
        s
    }
}

/// `s` without its leading and trailing white space.
pub open spec fn trim_of(s: Seq<char>) -> Seq<char> {
    trim_end_of(trim_start_of(s))
}

/// The name of what `str::to_lowercase` returns: the text in lower case.
pub uninterp spec fn lower_of(s: Seq<char>) -> Seq<char>;

/// Relies on `str::trim`: the text without its leading and trailing characters that
/// have Unicode's `White_Space` property.
#[verifier::external_body]
fn trimmed(s: &str) -> (r: &str)
    ensures
        r@ == trim_of(s@),
{
    s.trim()
}

/// Relies on `str::to_lowercase`: the text in lower case, which depends on the text
/// alone.
#[verifier::external_body]
fn lowercase(s: &str) -> (r: String)
    ensures
        r@ == lower_of(s@),
{
    s.to_lowercase()
}

/// The flags and data after option `o` (trimmed, in lower case) on top of `flags`
/// and `data`. With `mand_removed`, `mand` is refused.
pub open spec fn apply_option(
    flags: u64,
    data: Seq<Seq<char>>,
    o: Seq<char>,
    mand_removed: bool,
) -> Result<(u64, Seq<Seq<char>>), MountOptError> {
    if o.len() == 0 {
        Err(MountOptError::EmptyOption)
    } else if o.contains('=') {
        Ok((flags, data.push(o)))
    } else {
        match option_kind(o) {
            OptionKind::Flags { set, clear } => Ok(((flags & !clear) | set, data)),
            OptionKind::Mand => if mand_removed {
                Err(MountOptError::MandRemoved)
            } else {
                Ok((flags | MountFlags::MS_MANDLOCK, data))
            },
            OptionKind::Data => Ok((flags, data.push(o))),
        }
    }
}

/// What a result of one step says, over plain values.
pub open spec fn step_view(r: Result<(u64, Vec<String>), MountOptError>) -> Result<
    (u64, Seq<Seq<char>>),
    MountOptError,
> {
    match r {
        Ok((f, d)) => Ok((f, d.deep_view())),
        Err(e) => Err(e),
    }
}

/// Takes one option `o` (already trimmed and in lower case) on top of `flags` and
/// `data`: sets or clears its flags, keeps it as data, or refuses it.
pub fn apply_mount_option(flags: u64, data: Vec<String>, o: String, mand_removed: bool) -> (r:
    Result<(u64, Vec<String>), MountOptError>)
    ensures
        step_view(r) == apply_option(flags, data.deep_view(), o@, mand_removed),
{
    let mut data = data;
    let ghost d = data.deep_view();
    if o.as_str().is_empty() {
        return Err(MountOptError::EmptyOption);
    }
    if has_char(o.as_str(), '=') {
        data.push(o);
        assert(data.deep_view() =~= d.push(data@.last()@));
        return Ok((flags, data));
    }
    match option_kind_of(o.as_str()) {
        OptionKind::Flags { set, clear } => Ok(((flags & !clear) | set, data)),
        OptionKind::Mand => if mand_removed {
            Err(MountOptError::MandRemoved)
        } else {
            Ok((flags | MountFlags::MS_MANDLOCK, data))
        },
        OptionKind::Data => {
            data.push(o);
            assert(data.deep_view() =~= d.push(data@.last()@));
            Ok((flags, data))
        },
    }
}

/// The outcome of the options of `s` from index `from` on, the comma-separated
/// options before it having given `flags` and `data`. Each option is trimmed and put
/// in lower case before it is looked at.
pub open spec fn options_from(
    s: Seq<char>,
    from: int,
    flags: u64,
    data: Seq<Seq<char>>,
    mand_removed: bool,
) -> Result<(u64, Seq<Seq<char>>), MountOptError>
    decreases s.len() - from,
{
    if from < 0 || from > s.len() {
        Ok((flags, data))
    } else {
        let p = scan_to(s, from, ',', ',');
        let o = lower_of(trim_of(s.subrange(from, p)));
        match apply_option(flags, data, o, mand_removed) {
            Err(e) => Err(e),
            Ok((f, d)) => if p >= s.len() {
                Ok((f, d))
            } else {
                proof {
                    lemma_scan_to_bounds(s, from, ',', ',');
                }
                options_from(s, p + 1, f, d, mand_removed)
            },
        }
    }
}

/// The flags and filesystem data that the option string `s` gives: no flag and no
/// data for an empty string, else its comma-separated options taken in order.
pub open spec fn mount_options_of(s: Seq<char>, mand_removed: bool) -> Result<
    (u64, Seq<Seq<char>>),
    MountOptError,
> {
    if s.len() == 0 {
        Ok((0, Seq::empty()))
    } else {
        options_from(s, 0, 0, Seq::empty(), mand_removed)
    }
}

/// What a result of the parser says, over plain values.
pub open spec fn parsed_view(r: Result<(MountFlags, Vec<String>), MountOptError>) -> Result<
    (u64, Seq<Seq<char>>),
    MountOptError,
> {
    match r {
        Ok((f, d)) => Ok((f.bits, d.deep_view())),
        Err(e) => Err(e),
    }
}

/// Reads a `mount(8)` option string into `mount(2)` flags; options that are no flag
/// are kept, in order, as filesystem data. With `mand_removed`, `mand` is refused.
pub fn parse_mount_options(opts: &str, mand_removed: bool) -> (r: Result<
    (MountFlags, Vec<String>),
    MountOptError,
>)
    ensures
        parsed_view(r) == mount_options_of(opts@, mand_removed),
{
    let mut flags: u64 = 0;
    let mut data: Vec<String> = Vec::new();
    let n = opts.unicode_len();
    if n == 0 {
        assert(data.deep_view() =~= Seq::<Seq<char>>::empty());
        return Ok((MountFlags::from_bits_retain(flags), data));
    }
    let mut from: usize = 0;
    assert(data.deep_view() =~= Seq::<Seq<char>>::empty());
    loop
        invariant
            n == opts@.len(),
            n > 0,
            from <= n,
            options_from(opts@, from as int, flags, data.deep_view(), mand_removed)
                == mount_options_of(opts@, mand_removed),
        decreases n - from,
    {
        let p = find_either(opts, from, ',', ',');
        let piece = opts.substring_char(from, p);
        let o = lowercase(trimmed(piece));
        match apply_mount_option(flags, data, o, mand_removed) {
            Ok((f, d)) => {
                flags = f;
                data = d;
            },
            Err(e) => {
                return Err(e);
            },
        }
        if p >= n {
            return Ok((MountFlags::from_bits_retain(flags), data));
        }
        from = p + 1;
    }
}

/// Reads a `mount(8)` option string into `mount(2)` flags and filesystem data, as
/// [`parse_mount_options`] does; `mand` is refused unless the running kernel is
/// known to be older than 5.15, which removed mandatory locking.
pub fn msflags_from_mount_opts(opts: &str) -> (r: Result<(MountFlags, Vec<String>), MountOptError>)
    ensures
        parsed_view(r) == mount_options_of(opts@, true) || parsed_view(r) == mount_options_of(
            opts@,
            false,
        ),
{
    let mand_removed = match KernelVersion::current() {
        Some(v) => v.at_least(5, 15),
        None => true,
    };
    parse_mount_options(opts, mand_removed)
}

} // verus!
