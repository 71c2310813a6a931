//! Common functions and definitions of the hibernate tools.
//!
//! Nothing here opens a file or runs a program. What a file held or a
//! program printed is handed in as bytes.

use crate::parse::line_end;
use vstd::prelude::*;
use vstd::slice::slice_subrange;

verus! {

/// The number of pages in a larger chunk used to read and write the
/// hibernate data file.
pub const BUFFER_PAGES: usize = 32;

/// Options taken from the command line affecting hibernate.
#[derive(Clone, Copy, Debug, PartialEq, Eq)]
pub struct HibernateOptions {
    pub dry_run: bool,
    pub unencrypted: bool,
    pub test_keys: bool,
    pub force_platform_mode: bool,
}

impl Default for HibernateOptions {
    fn default() -> (options: HibernateOptions)
        ensures
            !options.dry_run,
            !options.unencrypted,
            !options.test_keys,
            !options.force_platform_mode,
    {
        HibernateOptions {
            dry_run: false,
            unencrypted: false,
            test_keys: false,
            force_platform_mode: false,
        }
    }
}

/// Options taken from the command line affecting resume.
#[derive(Clone, Copy, Debug, PartialEq, Eq)]
pub struct ResumeOptions {
    pub dry_run: bool,
    pub unencrypted: bool,
    pub test_keys: bool,
    pub no_preloader: bool,
}

impl Default for ResumeOptions {
    fn default() -> (options: ResumeOptions)
        ensures
            !options.dry_run,
            !options.unencrypted,
            !options.test_keys,
            !options.no_preloader,
    {
        ResumeOptions { dry_run: false, unencrypted: false, test_keys: false, no_preloader: false }
    }
}

/// The number of pages that make up four gigabytes.
pub open spec fn four_gigabytes_of_pages(page_size: int) -> int {
    (1048576int / page_size) * 1024 * 4
}

/// The total amount of memory in pages, given the count that the system
/// reported. A count of zero means that the system does not know; four
/// gigabytes are assumed then, the least that a machine that hibernates has.
pub fn get_total_memory_pages(pagecount: usize, page_size: usize) -> (pages: usize)
    requires
        pagecount == 0 ==> page_size > 0 && four_gigabytes_of_pages(page_size as int)
            <= usize::MAX,
    ensures
        pages == if pagecount == 0 {
            four_gigabytes_of_pages(page_size as int)
        } else {
            pagecount as int
        },
{
    if pagecount == 0 {
        let pages_per_mb: usize = 1024 * 1024 / page_size;
        assert(pages_per_mb * 1024 * 4 <= usize::MAX);
        let pages_per_gb: usize = pages_per_mb * 1024;
        return pages_per_gb * 4;
    }
    pagecount
}

/// Whether `header`, the start of a block device, carries the label of an
/// LVM physical volume: the eight bytes `LABELONE` at offset 512.
pub open spec fn has_lvm_label(header: Seq<u8>) -> bool {
    header.len() >= 520 && header.subrange(512, 520) == seq![
        0x4cu8,
        0x41u8,
        0x42u8,
        0x45u8,
        0x4cu8,
        0x4fu8,
        0x4eu8,
        0x45u8,
    ]
}

/// Whether the stateful partition runs on top of LVM, given the first bytes
/// of partition one.
pub fn is_lvm_system(header: &[u8]) -> (lvm: bool)
    ensures
        lvm == has_lvm_label(header@),
{
    if header.len() < 520 {
        return false;
    }
    let magic: [u8; 8] = [0x4c, 0x41, 0x42, 0x45, 0x4c, 0x4f, 0x4e, 0x45];
    let mut i: usize = 0;
    while i < 8
        invariant
            i <= 8,
            header@.len() >= 520,
            magic@ == seq![0x4cu8, 0x41u8, 0x42u8, 0x45u8, 0x4cu8, 0x4fu8, 0x4eu8, 0x45u8],
            forall|j: int| 0 <= j < i ==> header@[512 + j] == magic@[j],
        decreases 8 - i,
    {
        if header[512 + i] != magic[i] {
            assert(header@.subrange(512, 520)[i as int] != magic@[i as int]);
            return false;
        }
        i = i + 1;
    }
    assert(header@.subrange(512, 520) =~= magic@);
    true
}

/// The text that `bytes` encode in UTF-8; `None` if they are no valid
/// UTF-8. The name stands for the answer of the standard library.
pub uninterp spec fn utf8_text(bytes: Seq<u8>) -> Option<Seq<char>>;

/// `std::str::from_utf8`: the bytes as text, if they are valid UTF-8.
#[verifier::external_body]
fn str_from_utf8(bytes: &[u8]) -> (text: Option<&str>)
    ensures
        text is Some <==> utf8_text(bytes@) is Some,
        text matches Some(t) ==> t@ == utf8_text(bytes@)->0,
{
    match std::str::from_utf8(bytes) {
        Ok(text) => Some(text),
        Err(_) => None,
    }
}

/// The first position from `from` on that holds whitespace; the length of
/// the text if there is none.
pub open spec fn field_end(text: Seq<char>, from: int) -> int
    decreases text.len() - from,
{
    if 0 <= from < text.len() && !white_space(text[from]) {
        field_end(text, from + 1)
    } else {
        from
    }
}

/// The device that one line of a table of mounts names for the mount point
/// `target`. The fields of a line are the longest runs of characters that
/// are no whitespace; the first field is the device and the second the
/// mount point. A line with another mount point, or with fewer than two
/// fields, names none.
pub open spec fn line_source(line: Seq<char>, target: Seq<char>) -> Option<Seq<char>> {
    let device = leading_space_end(line, 0);
    let device_end = field_end(line, device);
    let point = leading_space_end(line, device_end);
    let point_end = field_end(line, point);
    if point < point_end && line.subrange(point, point_end) == target {
        Some(line.subrange(device, device_end))
    } else {
        None
    }
}

/// The device that the table of mounts `mounts` names for the mount point
/// `target`, looking at the lines from position `from` on. A line ends at a
/// line feed or at the end of the table. The first line that names a device
/// for `target` counts; a line that is no valid UTF-8 is passed over.
pub open spec fn mount_source(mounts: Seq<u8>, from: int, target: Seq<char>) -> Option<Seq<char>>
    decreases mounts.len() - from,
{
    if from < 0 || from >= mounts.len() {
        None
    } else {
        let end = from + line_end(mounts.skip(from));
        let found = match utf8_text(mounts.subrange(from, end)) {
            Some(line) => line_source(line, target),
            None => None,
        };
        if found is Some {
            found
        } else if end < mounts.len() {
            mount_source(mounts, end + 1, target)
        } else {
            None
        }
    }
}

fn scan_spaces(text: &str, len: usize, from: usize) -> (at: usize)
    requires
        len == text@.len(),
        from <= len,
    ensures
        at == leading_space_end(text@, from as int),
        from <= at <= len,
{
    let mut at: usize = from;
    while at < len && char_is_whitespace(text.get_char(at))
        invariant
            from <= at <= len,
            len == text@.len(),
            leading_space_end(text@, from as int) == leading_space_end(text@, at as int),
        decreases len - at,
    {
        at = at + 1;
    }
    at
}

fn scan_field(text: &str, len: usize, from: usize) -> (at: usize)
    requires
        len == text@.len(),
        from <= len,
    ensures
        at == field_end(text@, from as int),
        from <= at <= len,
{
    let mut at: usize = from;
    while at < len && !char_is_whitespace(text.get_char(at))
        invariant
            from <= at <= len,
            len == text@.len(),
            field_end(text@, from as int) == field_end(text@, at as int),
        decreases len - at,
    {
        at = at + 1;
    }
    at
}

fn scan_line(text: &[u8], from: usize) -> (end: usize)
    requires
        from <= text@.len(),
    ensures
        end == from + line_end(text@.skip(from as int)),
        from <= end <= text@.len(),
{
    let mut end: usize = from;
    assert(text@.skip(from as int).skip(0) =~= text@.skip(from as int));
    while end < text.len() && text[end] != 0x0a
        invariant
            from <= end <= text@.len(),
            line_end(text@.skip(from as int)) == (end - from) + line_end(text@.skip(end as int)),
        decreases text@.len() - end,
    {
        assert(text@.skip(end as int).drop_first() =~= text@.skip(end + 1));
        end = end + 1;
    }
    end
}

fn same_text(left: &str, right: &str) -> (same: bool)
    ensures
        same == (left@ == right@),
{
    String::from_str(left) == String::from_str(right)
}

/// The device that one line of a table of mounts names for the mount point
/// `target`.
pub fn find_line_source(line: &str, target: &str) -> (source: Option<String>)
    ensures
        source is Some <==> line_source(line@, target@) is Some,
        source matches Some(device) ==> device@ == line_source(line@, target@)->0,
{
    let len = line.unicode_len();
    let device = scan_spaces(line, len, 0);
    let device_end = scan_field(line, len, device);
    let point = scan_spaces(line, len, device_end);
    let point_end = scan_field(line, len, point);
    if point < point_end && same_text(line.substring_char(point, point_end), target) {
        Some(String::from_str(line.substring_char(device, device_end)))
    } else {
        None
    }
}

/// The device that the table of mounts `mounts` names for the mount point
/// `target`.
pub fn find_mount_source(mounts: &[u8], target: &str) -> (source: Option<String>)
    ensures
        source is Some <==> mount_source(mounts@, 0, target@) is Some,
        source matches Some(device) ==> device@ == mount_source(mounts@, 0, target@)->0,
{
    let mut from: usize = 0;
    while from < mounts.len()
        invariant
            mount_source(mounts@, 0, target@) == mount_source(mounts@, from as int, target@),
        decreases mounts@.len() - from,
    {
        let end = scan_line(mounts, from);
        let found = match str_from_utf8(slice_subrange(mounts, from, end)) {
            Some(line) => find_line_source(line, target),
            None => None,
        };
        if found.is_some() {
            return found;
        }
        if end == mounts.len() {
            return None;
        }
        from = end + 1;
    }
    None
}

/// The mount point of the unencrypted stateful partition.
pub open spec fn stateful_mount_point() -> Seq<char> {
    "/mnt/stateful_partition"@
}

/// The block device on which the stateful partition is mounted, according
/// to `mounts`, the content of the table of mounts.
pub fn path_to_mounted_stateful_part(mounts: &[u8]) -> (r: Result<String, HibernateError>)
    ensures
        r is Ok <==> mount_source(mounts@, 0, stateful_mount_point()) is Some,
        r matches Ok(device) ==> device@ == mount_source(mounts@, 0, stateful_mount_point())->0,
        r matches Err(e) ==> e is StatefulPartitionNotFoundError,
{
    match find_mount_source(mounts, "/mnt/stateful_partition") {
        Some(device) => Ok(device),
        None => Err(HibernateError::StatefulPartitionNotFoundError()),
    }
}

/// The failures of the hibernate tools. Where the system reported an error
/// number, the failure carries it.
#[derive(Debug, PartialEq, Eq)]
pub enum HibernateError {
    /// Cookie error
    CookieError(String),
    /// Dbus error
    DbusError(String),
    /// Failed to copy the FD for the polling context.
    FallocateError(i32),
    /// Error getting the fiemap
    FiemapError(i32),
    /// First data byte mismatch
    FirstDataByteMismatch(),
    /// Header content hash mismatch
    HeaderContentHashMismatch(),
    /// Header content length mismatch
    HeaderContentLengthMismatch(),
    /// Header incomplete
    HeaderIncomplete(),
    /// Invalid fiemap
    InvalidFiemapError(String),
    /// Image unencrypted
    ImageUnencryptedError(),
    /// Key manager error
    KeyManagerError(String),
    /// Metadata error
    MetadataError(String),
    /// Failed to lock process memory.
    MlockallError(i32),
    /// Mmap error.
    MmapError(i32),
    /// I/O size error
    IoSizeError(String),
    /// Snapshot device error.
    SnapshotError(String),
    /// Snapshot ioctl error.
    SnapshotIoctlError(String, i32),
    /// Stateful partition not found.
    StatefulPartitionNotFoundError(),
}

/// The character that writes the decimal digit `digit`.
pub open spec fn digit_char(digit: int) -> char {
    if digit == 0 {
        '0'
    } else if digit == 1 {
        '1'
    } else if digit == 2 {
        '2'
    } else if digit == 3 {
        '3'
    } else if digit == 4 {
        '4'
    } else if digit == 5 {
        '5'
    } else if digit == 6 {
        '6'
    } else if digit == 7 {
        '7'
    } else if digit == 8 {
        '8'
    } else {
        '9'
    }
}

/// The decimal digits of `n`, without leading zeroes.
pub open spec fn decimal_digits(n: nat) -> Seq<char>
    decreases n,
{
    if n < 10 {
        seq![digit_char(n as int)]
    } else {
        decimal_digits(n / 10) + seq![digit_char((n % 10) as int)]
    }
}

/// How the system error with the number `errno` is written: `Error: `, then
/// the number in decimal, with a minus sign if it is negative.
pub open spec fn system_error_text(errno: i32) -> Seq<char> {
    if errno < 0 {
        "Error: "@ + seq!['-'] + decimal_digits((-errno) as nat)
    } else {
        "Error: "@ + decimal_digits(errno as nat)
    }
}

/// `sys_util::Error::new` and the `Display` of the error that it makes:
/// the text `Error: ` followed by the error number in decimal.
#[verifier::external_body]
fn errno_text(errno: i32) -> (text: String)
    ensures
        text@ == system_error_text(errno),
{
    format!("{}", sys_util::Error::new(errno))
}

impl HibernateError {
    /// The text that describes the failure.
    pub open spec fn message_text(&self) -> Seq<char> {
        match self {
            HibernateError::CookieError(s) => "Cookie error: "@ + s@,
            HibernateError::DbusError(s) => "Dbus error: "@ + s@,
            HibernateError::FallocateError(errno) => "Failed to fallocate the file: "@
                + system_error_text(*errno),
            HibernateError::FiemapError(errno) => "Error getting the fiemap: "@
                + system_error_text(*errno),
            HibernateError::FirstDataByteMismatch() => "First data byte mismatch"@,
            HibernateError::HeaderContentHashMismatch() => "Header content hash mismatch"@,
            HibernateError::HeaderContentLengthMismatch() => "Header content length mismatch"@,
            HibernateError::HeaderIncomplete() => "Header incomplete"@,
            HibernateError::InvalidFiemapError(s) => "Invalid fiemap: "@ + s@,
            HibernateError::ImageUnencryptedError() => "Image unencrypted"@,
            HibernateError::KeyManagerError(s) => "Key manager error: "@ + s@,
            HibernateError::MetadataError(s) => "Metadata error: "@ + s@,
            HibernateError::MlockallError(errno) => "Failed to mlockall: "@ + system_error_text(
                *errno,
            ),
            HibernateError::MmapError(errno) => "mmap error: "@ + system_error_text(*errno),
            HibernateError::IoSizeError(s) => "I/O size error: "@ + s@,
            HibernateError::SnapshotError(s) => "Snapshot device error: "@ + s@,
            HibernateError::SnapshotIoctlError(s, errno) => "Snapshot ioctl error: "@ + s@ + ": "@
                + system_error_text(*errno),
            HibernateError::StatefulPartitionNotFoundError() => "Stateful partition not found"@,
        }
    }

    /// The text that describes the failure.
    pub fn message(&self) -> (text: String)
        ensures
            text@ == self.message_text(),
    {
        match self {
            HibernateError::CookieError(s) => prefixed("Cookie error: ", s.as_str()),
            HibernateError::DbusError(s) => prefixed("Dbus error: ", s.as_str()),
            HibernateError::FallocateError(errno) => prefixed(
                "Failed to fallocate the file: ",
                errno_text(*errno).as_str(),
            ),
            HibernateError::FiemapError(errno) => prefixed(
                "Error getting the fiemap: ",
                errno_text(*errno).as_str(),
            ),
            HibernateError::FirstDataByteMismatch() => String::from_str("First data byte mismatch"),
            HibernateError::HeaderContentHashMismatch() => String::from_str(
                "Header content hash mismatch",
            ),
            HibernateError::HeaderContentLengthMismatch() => String::from_str(
                "Header content length mismatch",
            ),
            HibernateError::HeaderIncomplete() => String::from_str("Header incomplete"),
            HibernateError::InvalidFiemapError(s) => prefixed("Invalid fiemap: ", s.as_str()),
            HibernateError::ImageUnencryptedError() => String::from_str("Image unencrypted"),
            HibernateError::KeyManagerError(s) => prefixed("Key manager error: ", s.as_str()),
            HibernateError::MetadataError(s) => prefixed("Metadata error: ", s.as_str()),
            HibernateError::MlockallError(errno) => prefixed(
                "Failed to mlockall: ",
                errno_text(*errno).as_str(),
            ),
            HibernateError::MmapError(errno) => prefixed(
                "mmap error: ",
                errno_text(*errno).as_str(),
            ),
            HibernateError::IoSizeError(s) => prefixed("I/O size error: ", s.as_str()),
            HibernateError::SnapshotError(s) => prefixed("Snapshot device error: ", s.as_str()),
            HibernateError::SnapshotIoctlError(s, errno) => {
                let mut text = prefixed("Snapshot ioctl error: ", s.as_str());
                text.append(": ");
                text.append(errno_text(*errno).as_str());
                text
            },
            HibernateError::StatefulPartitionNotFoundError() => String::from_str(
                "Stateful partition not found",
            ),
        }
    }
}

fn prefixed(prefix: &str, rest: &str) -> (text: String)
    ensures
        text@ == prefix@ + rest@,
{
    let mut text = String::from_str(prefix);
    text.append(rest);
    text
}

/// Whether `c` is a numeric character. The name stands for the answer of
/// the standard library.
pub uninterp spec fn numeric_char(c: char) -> bool;

/// `char::is_numeric`: whether the character has one of the general
/// categories for numbers.
#[verifier::external_body]
fn char_is_numeric(c: char) -> (numeric: bool)
    ensures
        numeric == numeric_char(c),
{
    c.is_numeric()
}

/// The text that the bytes `bytes` decode to when every invalid sequence is
/// replaced by the replacement character. The name stands for the answer of
/// the standard library.
pub uninterp spec fn utf8_lossy(bytes: Seq<u8>) -> Seq<char>;

/// `String::from_utf8_lossy`: the bytes as text, invalid sequences replaced.
#[verifier::external_body]
fn from_utf8_lossy(bytes: &[u8]) -> (text: String)
    ensures
        text@ == utf8_lossy(bytes@),
{
    String::from_utf8_lossy(bytes).into_owned()
}

/// Whether `c` is a whitespace character. The name stands for the answer
/// of the standard library.
pub uninterp spec fn white_space(c: char) -> bool;

/// `char::is_whitespace`: whether the character has the property
/// `White_Space`.
#[verifier::external_body]
fn char_is_whitespace(c: char) -> (space: bool)
    ensures
        space == white_space(c),
{
    c.is_whitespace()
}

/// The first position from `from` on that holds no whitespace; the length
/// of the text if there is none.
pub open spec fn leading_space_end(text: Seq<char>, from: int) -> int
    decreases text.len() - from,
{
    if 0 <= from < text.len() && white_space(text[from]) {
        leading_space_end(text, from + 1)
    } else {
        from
    }
}

/// The end of the text before `end` once the whitespace in front of `end`
/// is left out, looking no further back than `start`.
pub open spec fn trailing_space_start(text: Seq<char>, start: int, end: int) -> int
    decreases end,
{
    if 0 <= start < end <= text.len() && white_space(text[end - 1]) {
        trailing_space_start(text, start, end - 1)
    } else {
        end
    }
}

/// The text `text` without the whitespace at its start and at its end.
pub open spec fn trimmed(text: Seq<char>) -> Seq<char> {
    let start = leading_space_end(text, 0);
    let end = trailing_space_start(text, start, text.len() as int);
    text.subrange(start, end)
}

/// The text without the whitespace at its start and at its end.
pub fn trim(text: &str) -> (inner: String)
    ensures
        inner@ == trimmed(text@),
{
    let len = text.unicode_len();
    let mut start: usize = 0;
    while start < len && char_is_whitespace(text.get_char(start))
        invariant
            start <= len,
            len == text@.len(),
            leading_space_end(text@, 0) == leading_space_end(text@, start as int),
        decreases len - start,
    {
        start = start + 1;
    }
    let mut end: usize = len;
    while start < end && char_is_whitespace(text.get_char(end - 1))
        invariant
            start <= end <= len,
            len == text@.len(),
            trailing_space_start(text@, start as int, len as int) == trailing_space_start(
                text@,
                start as int,
                end as int,
            ),
        decreases end,
    {
        end = end - 1;
    }
    String::from_str(text.substring_char(start, end))
}

/// What a program printed, as the tools read it: decoded with invalid
/// sequences replaced, then without the whitespace around it.
pub open spec fn output_text(stdout: Seq<u8>) -> Seq<char> {
    trimmed(utf8_lossy(stdout))
}

/// What a program printed, as the tools read it.
pub fn command_output(stdout: &[u8]) -> (text: String)
    ensures
        text@ == output_text(stdout@),
{
    let decoded = from_utf8_lossy(stdout);
    trim(decoded.as_str())
}

/// The path of partition one on the block device `rootdev`: a `p` stands
/// between the device and the number if the name of the device ends in a
/// numeric character.
pub open spec fn partition_one(rootdev: Seq<char>) -> Seq<char> {
    if rootdev.len() > 0 && numeric_char(rootdev.last()) {
        rootdev + "p1"@
    } else {
        rootdev + "1"@
    }
}

/// The path to partition one (stateful) on the root block device `rootdev`.
pub fn stateful_block_partition_one(rootdev: &str) -> (partition: String)
    ensures
        partition@ == partition_one(rootdev@),
{
    let len = rootdev.unicode_len();
    if len > 0 {
        let last = rootdev.get_char(len - 1);
        if char_is_numeric(last) {
            return prefixed(rootdev, "p1");
        }
    }
    prefixed(rootdev, "1")
}

/// The block device that contains the stateful partition, given what
/// `rootdev -d` printed.
pub fn path_to_stateful_block(rootdev_output: &[u8]) -> (device: String)
    ensures
        device@ == output_text(rootdev_output@),
{
    command_output(rootdev_output)
}

/// The name of the volume group of a block device, given what `pvdisplay`
/// printed for it.
pub fn get_vg_name(pvdisplay_output: &[u8]) -> (name: String)
    ensures
        name@ == output_text(pvdisplay_output@),
{
    command_output(pvdisplay_output)
}

/// The block device of the unencrypted logical volume in the volume group
/// `vg_name`.
pub open spec fn unencrypted_volume(vg_name: Seq<char>) -> Seq<char> {
    "/dev/"@ + vg_name + "/unencrypted"@
}

/// The block device of the unencrypted logical volume in the volume group
/// `vg_name`.
pub fn unencrypted_volume_path(vg_name: &str) -> (path: String)
    ensures
        path@ == unencrypted_volume(vg_name@),
{
    let mut path = prefixed("/dev/", vg_name);
    path.append("/unencrypted");
    path
}

/// A look at the system that the tools ask for.
#[derive(Clone, Debug, PartialEq, Eq)]
pub enum Probe {
    /// Read the whole content of a file.
    ReadFile { path: String },
    /// Find out whether a path exists.
    Exists { path: String },
    /// Run a program and collect what it prints.
    Run { program: String, args: Vec<String> },
}

/// A [`Probe`] over sequences of characters.
pub enum ProbeView {
    ReadFile { path: Seq<char> },
    Exists { path: Seq<char> },
    Run { program: Seq<char>, args: Seq<Seq<char>> },
}

/// The elements of `args`, each as a sequence of characters.
pub open spec fn arg_views(args: Seq<String>) -> Seq<Seq<char>> {
    Seq::new(args.len(), |i: int| args[i]@)
}

impl View for Probe {
    type V = ProbeView;

    open spec fn view(&self) -> ProbeView {
        match self {
            Probe::ReadFile { path } => ProbeView::ReadFile { path: path@ },
            Probe::Exists { path } => ProbeView::Exists { path: path@ },
            Probe::Run { program, args } => ProbeView::Run {
                program: program@,
                args: arg_views(args@),
            },
        }
    }
}

/// What a [`Probe`] found.
#[derive(Clone, Debug, PartialEq, Eq)]
pub enum Finding {
    /// The content of the file.
    Content(Vec<u8>),
    /// Whether the path exists.
    Exists(bool),
    /// What the program printed.
    Output(Vec<u8>),
    /// The file could not be read, the path not looked at, or the program
    /// not run.
    Failed,
}

/// A [`Finding`] over sequences.
pub enum FindingView {
    Content(Seq<u8>),
    Exists(bool),
    Output(Seq<u8>),
    Failed,
}

impl View for Finding {
    type V = FindingView;

    open spec fn view(&self) -> FindingView {
        match self {
            Finding::Content(bytes) => FindingView::Content(bytes@),
            Finding::Exists(exists) => FindingView::Exists(*exists),
            Finding::Output(bytes) => FindingView::Output(bytes@),
            Finding::Failed => FindingView::Failed,
        }
    }
}

/// Why a search for the stateful partition or its volume group failed.
#[derive(Clone, Copy, PartialEq, Eq, Structural, Debug)]
pub enum LookupError {
    /// The table of mounts could not be read.
    MountsUnreadable,
    /// No line of the table of mounts names the stateful partition.
    StatefulPartitionNotFound,
    /// The root block device could not be asked for.
    RootdevFailed,
    /// The volume group could not be activated.
    ActivationFailed,
}

impl FindingView {
    /// Whether the probe for the snapshot device found it: it is there only
    /// on a resume boot.
    pub open spec fn snapshot_active(self) -> bool {
        self == FindingView::Exists(true)
    }
}

/// The probe that reads the table of mounts.
pub open spec fn mounts_probe() -> ProbeView {
    ProbeView::ReadFile { path: "/proc/mounts"@ }
}

/// The probe that tells whether the snapshot of the stateful partition is
/// active.
pub open spec fn snapshot_probe() -> ProbeView {
    ProbeView::Exists { path: "/dev/mapper/stateful-rw"@ }
}

/// The probe that asks for the root block device.
pub open spec fn rootdev_probe() -> ProbeView {
    ProbeView::Run { program: "/usr/bin/rootdev"@, args: seq!["-d"@] }
}

/// The probe that asks for the volume group of `blockdev`.
pub open spec fn vg_name_probe(blockdev: Seq<char>) -> ProbeView {
    ProbeView::Run {
        program: "/sbin/pvdisplay"@,
        args: seq!["-C"@, "--noheadings"@, "-o"@, "vg_name"@, blockdev],
    }
}

/// The probe that switches the volume group `vg_name` on or off.
pub open spec fn vgchange_probe(activate: bool, vg_name: Seq<char>) -> ProbeView {
    ProbeView::Run {
        program: "/sbin/vgchange"@,
        args: seq![
            if activate {
                "-ay"@
            } else {
                "-an"@
            },
            vg_name,
        ],
    }
}

fn snapshot_request() -> (probe: Probe)
    ensures
        probe@ == snapshot_probe(),
{
    Probe::Exists { path: String::from_str("/dev/mapper/stateful-rw") }
}

fn rootdev_request() -> (probe: Probe)
    ensures
        probe@ == rootdev_probe(),
{
    let mut args: Vec<String> = Vec::new();
    args.push(String::from_str("-d"));
    let probe = Probe::Run { program: String::from_str("/usr/bin/rootdev"), args };
    assert(probe@->args =~= seq!["-d"@]);
    probe
}

fn vg_name_request(blockdev: &str) -> (probe: Probe)
    ensures
        probe@ == vg_name_probe(blockdev@),
{
    let mut args: Vec<String> = Vec::new();
    args.push(String::from_str("-C"));
    args.push(String::from_str("--noheadings"));
    args.push(String::from_str("-o"));
    args.push(String::from_str("vg_name"));
    args.push(String::from_str(blockdev));
    let probe = Probe::Run { program: String::from_str("/sbin/pvdisplay"), args };
    assert(probe@->args =~= seq!["-C"@, "--noheadings"@, "-o"@, "vg_name"@, blockdev@]);
    probe
}

fn vgchange_request(activate: bool, vg_name: &str) -> (probe: Probe)
    ensures
        probe@ == vgchange_probe(activate, vg_name@),
{
    let mut args: Vec<String> = Vec::new();
    if activate {
        args.push(String::from_str("-ay"));
    } else {
        args.push(String::from_str("-an"));
    }
    args.push(String::from_str(vg_name));
    let probe = Probe::Run { program: String::from_str("/sbin/vgchange"), args };
    assert(probe@->args =~= seq![
        if activate {
            "-ay"@
        } else {
            "-an"@
        },
        vg_name@,
    ]);
    probe
}

/// What a search for the stateful partition is waiting for.
pub enum SearchStage {
    /// For the table of mounts.
    Mounts,
    /// For whether the snapshot is active; `mounted` is the device from
    /// the table.
    Snapshot { mounted: String },
    /// For the root block device.
    Rootdev,
    /// For the volume group of partition one.
    VgName { partition1: String },
    /// For nothing: the search is over.
    Done { result: Result<String, LookupError> },
}

/// A [`SearchStage`] over sequences of characters.
pub enum SearchView {
    Mounts,
    Snapshot { mounted: Seq<char> },
    Rootdev,
    VgName { partition1: Seq<char> },
    Done { result: Result<Seq<char>, LookupError> },
}

/// A path or a failure, the path as a sequence of characters.
pub open spec fn path_view(result: Result<String, LookupError>) -> Result<Seq<char>, LookupError> {
    match result {
        Ok(path) => Ok(path@),
        Err(e) => Err(e),
    }
}

impl SearchView {
    /// The probe that the search waits for; `None` once it is over.
    pub open spec fn request(self) -> Option<ProbeView> {
        match self {
            SearchView::Mounts => Some(mounts_probe()),
            SearchView::Snapshot { .. } => Some(snapshot_probe()),
            SearchView::Rootdev => Some(rootdev_probe()),
            SearchView::VgName { partition1 } => Some(vg_name_probe(partition1)),
            SearchView::Done { .. } => None,
        }
    }

    /// The block device found, or the failure; `None` while a probe is
    /// pending.
    pub open spec fn result(self) -> Option<Result<Seq<char>, LookupError>> {
        match self {
            SearchView::Done { result } => Some(result),
            _ => None,
        }
    }

    /// The search after `finding` has answered the pending probe.
    ///
    /// Without an active snapshot the device from the table of mounts is
    /// the answer. With one, the answer is the unencrypted volume of the
    /// volume group of partition one of the root device, or partition one
    /// itself where no volume group can be asked for.
    pub open spec fn step(self, finding: FindingView) -> SearchView {
        match self {
            SearchView::Mounts => match finding {
                FindingView::Content(mounts) => match mount_source(
                    mounts,
                    0,
                    stateful_mount_point(),
                ) {
                    Some(device) => SearchView::Snapshot { mounted: device },
                    None => SearchView::Done { result: Err(LookupError::StatefulPartitionNotFound) },
                },
                _ => SearchView::Done { result: Err(LookupError::MountsUnreadable) },
            },
            SearchView::Snapshot { mounted } => if finding.snapshot_active() {
                SearchView::Rootdev
            } else {
                SearchView::Done { result: Ok(mounted) }
            },
            SearchView::Rootdev => match finding {
                FindingView::Output(stdout) => SearchView::VgName {
                    partition1: partition_one(output_text(stdout)),
                },
                _ => SearchView::Done { result: Err(LookupError::RootdevFailed) },
            },
            SearchView::VgName { partition1 } => match finding {
                FindingView::Output(stdout) => SearchView::Done {
                    result: Ok(unencrypted_volume(output_text(stdout))),
                },
                _ => SearchView::Done { result: Ok(partition1) },
            },
            SearchView::Done { result } => SearchView::Done { result },
        }
    }
}

impl View for SearchStage {
    type V = SearchView;

    open spec fn view(&self) -> SearchView {
        match self {
            SearchStage::Mounts => SearchView::Mounts,
            SearchStage::Snapshot { mounted } => SearchView::Snapshot { mounted: mounted@ },
            SearchStage::Rootdev => SearchView::Rootdev,
            SearchStage::VgName { partition1 } => SearchView::VgName { partition1: partition1@ },
            SearchStage::Done { result } => SearchView::Done { result: path_view(*result) },
        }
    }
}

/// The search for the block device that the unencrypted stateful file
/// system resides on. It ends with the true read-write block device, even
/// if stateful is mounted on a snapshot device where writes are being
/// diverted, so that logs and data can be persisted across a resume.
pub struct StatefulPartSearch {
    stage: SearchStage,
}

impl View for StatefulPartSearch {
    type V = SearchView;

    closed spec fn view(&self) -> SearchView {
        self.stage@
    }
}

/// Starts the search for the block device of the stateful partition.
pub fn path_to_stateful_part() -> (search: StatefulPartSearch)
    ensures
        search@ == SearchView::Mounts,
{
    StatefulPartSearch { stage: SearchStage::Mounts }
}

impl StatefulPartSearch {
    /// The probe to perform next; `None` once the search is over.
    pub fn request(&self) -> (probe: Option<Probe>)
        ensures
            probe is Some <==> self@.request() is Some,
            probe matches Some(p) ==> p@ == self@.request()->0,
    {
        match &self.stage {
            SearchStage::Mounts => Some(Probe::ReadFile { path: String::from_str("/proc/mounts") }),
            SearchStage::Snapshot { .. } => Some(snapshot_request()),
            SearchStage::Rootdev => Some(rootdev_request()),
            SearchStage::VgName { partition1 } => Some(vg_name_request(partition1.as_str())),
            SearchStage::Done { .. } => None,
        }
    }

    /// The block device found, or the failure; `None` while a probe is
    /// pending.
    pub fn result(&self) -> (result: Option<Result<String, LookupError>>)
        ensures
            result is Some <==> self@.result() is Some,
            result matches Some(r) ==> path_view(r) == self@.result()->0,
    {
        match &self.stage {
            SearchStage::Done { result } => match result {
                Ok(path) => Some(Ok(path.clone())),
                Err(e) => Some(Err(*e)),
            },
            _ => None,
        }
    }

    /// Takes what the pending probe found and decides how the search goes
    /// on.
    pub fn advance(self, finding: Finding) -> (search: StatefulPartSearch)
        ensures
            search@ == self@.step(finding@),
    {
        let stage = match self.stage {
            SearchStage::Mounts => match finding {
                Finding::Content(mounts) => match path_to_mounted_stateful_part(
                    mounts.as_slice(),
                ) {
                    Ok(device) => SearchStage::Snapshot { mounted: device },
                    Err(_) => SearchStage::Done {
                        result: Err(LookupError::StatefulPartitionNotFound),
                    },
                },
                _ => SearchStage::Done { result: Err(LookupError::MountsUnreadable) },
            },
            SearchStage::Snapshot { mounted } => match finding {
                Finding::Exists(true) => SearchStage::Rootdev,
                _ => SearchStage::Done { result: Ok(mounted) },
            },
            SearchStage::Rootdev => match finding {
                Finding::Output(stdout) => {
                    let rootdev = path_to_stateful_block(stdout.as_slice());
                    SearchStage::VgName {
                        partition1: stateful_block_partition_one(rootdev.as_str()),
                    }
                },
                _ => SearchStage::Done { result: Err(LookupError::RootdevFailed) },
            },
            SearchStage::VgName { partition1 } => match finding {
                Finding::Output(stdout) => {
                    let vg_name = get_vg_name(stdout.as_slice());
                    SearchStage::Done { result: Ok(unencrypted_volume_path(vg_name.as_str())) }
                },
                _ => SearchStage::Done { result: Ok(partition1) },
            },
            SearchStage::Done { result } => SearchStage::Done { result },
        };
        StatefulPartSearch { stage }
    }
}

/// A volume group that the tools may have switched on. It remembers the
/// name only if it did the switching, so that it switches off no group that
/// was on before.
#[derive(Debug, PartialEq, Eq)]
pub struct ActivatedVolumeGroup {
    vg_name: Option<String>,
}

impl View for ActivatedVolumeGroup {
    type V = Option<Seq<char>>;

    /// The name of the group to switch off in the end, if there is one.
    closed spec fn view(&self) -> Option<Seq<char>> {
        match self.vg_name {
            Some(name) => Some(name@),
            None => None,
        }
    }
}

impl ActivatedVolumeGroup {
    /// The probe that undoes the activation when the group is let go of;
    /// `None` if the group was active before.
    pub fn deactivation(&self) -> (probe: Option<Probe>)
        ensures
            probe is Some <==> self@ is Some,
            probe matches Some(p) ==> p@ == vgchange_probe(false, self@->0),
    {
        match &self.vg_name {
            Some(name) => Some(vgchange_request(false, name.as_str())),
            None => None,
        }
    }
}

/// What an activation of the volume group is waiting for.
pub enum ActivationStage {
    /// For whether the snapshot is active.
    Snapshot,
    /// For the root block device.
    Rootdev,
    /// For the volume group of partition one.
    VgName { partition1: String },
    /// For whether the unencrypted volume of the group is there already.
    Present { vg_name: String },
    /// For the program that switches the group on.
    Activate { vg_name: String },
    /// For nothing: the activation is over.
    Done { result: Result<Option<ActivatedVolumeGroup>, LookupError> },
}

/// An [`ActivationStage`] over sequences of characters. In the result, the
/// inner option is the name that the group remembers.
pub enum ActivationView {
    Snapshot,
    Rootdev,
    VgName { partition1: Seq<char> },
    Present { vg_name: Seq<char> },
    Activate { vg_name: Seq<char> },
    Done { result: Result<Option<Option<Seq<char>>>, LookupError> },
}

/// A volume group or none or a failure, the group by its view.
pub open spec fn group_view(result: Result<Option<ActivatedVolumeGroup>, LookupError>) -> Result<
    Option<Option<Seq<char>>>,
    LookupError,
> {
    match result {
        Ok(Some(group)) => Ok(Some(group@)),
        Ok(None) => Ok(None),
        Err(e) => Err(e),
    }
}

impl ActivationView {
    /// The probe that the activation waits for; `None` once it is over.
    pub open spec fn request(self) -> Option<ProbeView> {
        match self {
            ActivationView::Snapshot => Some(snapshot_probe()),
            ActivationView::Rootdev => Some(rootdev_probe()),
            ActivationView::VgName { partition1 } => Some(vg_name_probe(partition1)),
            ActivationView::Present { vg_name } => Some(
                ProbeView::Exists { path: unencrypted_volume(vg_name) },
            ),
            ActivationView::Activate { vg_name } => Some(vgchange_probe(true, vg_name)),
            ActivationView::Done { .. } => None,
        }
    }

    /// The group, or the failure; `None` while a probe is pending.
    pub open spec fn result(self) -> Option<Result<Option<Option<Seq<char>>>, LookupError>> {
        match self {
            ActivationView::Done { result } => Some(result),
            _ => None,
        }
    }

    /// The activation after `finding` has answered the pending probe.
    ///
    /// There is no group without an active snapshot, nor where no volume
    /// group can be asked for. A group whose unencrypted volume is there
    /// already is left as it is; any other group is switched on and
    /// remembered.
    pub open spec fn step(self, finding: FindingView) -> ActivationView {
        match self {
            ActivationView::Snapshot => if finding.snapshot_active() {
                ActivationView::Rootdev
            } else {
                ActivationView::Done { result: Ok(None) }
            },
            ActivationView::Rootdev => match finding {
                FindingView::Output(stdout) => ActivationView::VgName {
                    partition1: partition_one(output_text(stdout)),
                },
                _ => ActivationView::Done { result: Err(LookupError::RootdevFailed) },
            },
            ActivationView::VgName { partition1 } => match finding {
                FindingView::Output(stdout) => ActivationView::Present {
                    vg_name: output_text(stdout),
                },
                _ => ActivationView::Done { result: Ok(None) },
            },
            ActivationView::Present { vg_name } => if finding == FindingView::Exists(true) {
                ActivationView::Done { result: Ok(Some(None)) }
            } else {
                ActivationView::Activate { vg_name }
            },
            ActivationView::Activate { vg_name } => match finding {
                FindingView::Output(_) => ActivationView::Done { result: Ok(Some(Some(vg_name))) },
                _ => ActivationView::Done { result: Err(LookupError::ActivationFailed) },
            },
            ActivationView::Done { result } => ActivationView::Done { result },
        }
    }
}

impl View for ActivationStage {
    type V = ActivationView;

    open spec fn view(&self) -> ActivationView {
        match self {
            ActivationStage::Snapshot => ActivationView::Snapshot,
            ActivationStage::Rootdev => ActivationView::Rootdev,
            ActivationStage::VgName { partition1 } => ActivationView::VgName {
                partition1: partition1@,
            },
            ActivationStage::Present { vg_name } => ActivationView::Present { vg_name: vg_name@ },
            ActivationStage::Activate { vg_name } => ActivationView::Activate {
                vg_name: vg_name@,
            },
            ActivationStage::Done { result } => ActivationView::Done {
                result: group_view(*result),
            },
        }
    }
}

/// The activation of the volume group of the stateful partition on a
/// resume boot.
pub struct VgActivation {
    stage: ActivationStage,
}

impl View for VgActivation {
    type V = ActivationView;

    closed spec fn view(&self) -> ActivationView {
        self.stage@
    }
}

/// Starts the activation of the volume group of the stateful partition.
pub fn activate_physical_vg() -> (activation: VgActivation)
    ensures
        activation@ == ActivationView::Snapshot,
{
    VgActivation { stage: ActivationStage::Snapshot }
}

impl VgActivation {
    /// The probe to perform next; `None` once the activation is over.
    pub fn request(&self) -> (probe: Option<Probe>)
        ensures
            probe is Some <==> self@.request() is Some,
            probe matches Some(p) ==> p@ == self@.request()->0,
    {
        match &self.stage {
            ActivationStage::Snapshot => Some(snapshot_request()),
            ActivationStage::Rootdev => Some(rootdev_request()),
            ActivationStage::VgName { partition1 } => Some(vg_name_request(partition1.as_str())),
            ActivationStage::Present { vg_name } => Some(
                Probe::Exists { path: unencrypted_volume_path(vg_name.as_str()) },
            ),
            ActivationStage::Activate { vg_name } => Some(vgchange_request(true, vg_name.as_str())),
            ActivationStage::Done { .. } => None,
        }
    }

    /// Whether the activation is over.
    pub fn is_done(&self) -> (done: bool)
        ensures
            done == self@.result() is Some,
    {
        match &self.stage {
            ActivationStage::Done { .. } => true,
            _ => false,
        }
    }

    /// The group, or the failure, of an activation that is over. An
    /// activation that still waits for a probe is handed back.
    pub fn into_result(self) -> (result: Result<
        Result<Option<ActivatedVolumeGroup>, LookupError>,
        VgActivation,
    >)
        ensures
            result is Ok <==> self@.result() is Some,
            result matches Ok(r) ==> group_view(r) == self@.result()->0,
            result matches Err(pending) ==> pending@ == self@,
    {
        match self.stage {
            ActivationStage::Done { result } => Ok(result),
            stage => Err(VgActivation { stage }),
        }
    }

    /// Takes what the pending probe found and decides how the activation
    /// goes on.
    pub fn advance(self, finding: Finding) -> (activation: VgActivation)
        ensures
            activation@ == self@.step(finding@),
    {
        let stage = match self.stage {
            ActivationStage::Snapshot => match finding {
                Finding::Exists(true) => ActivationStage::Rootdev,
                _ => ActivationStage::Done { result: Ok(None) },
            },
            ActivationStage::Rootdev => match finding {
                Finding::Output(stdout) => {
                    let rootdev = path_to_stateful_block(stdout.as_slice());
                    ActivationStage::VgName {
                        partition1: stateful_block_partition_one(rootdev.as_str()),
                    }
                },
                _ => ActivationStage::Done { result: Err(LookupError::RootdevFailed) },
            },
            ActivationStage::VgName { partition1 } => match finding {
                Finding::Output(stdout) => ActivationStage::Present {
                    vg_name: get_vg_name(stdout.as_slice()),
                },
                _ => ActivationStage::Done { result: Ok(None) },
            },
            ActivationStage::Present { vg_name } => match finding {
                Finding::Exists(true) => ActivationStage::Done {
                    result: Ok(Some(ActivatedVolumeGroup { vg_name: None })),
                },
                _ => ActivationStage::Activate { vg_name },
            },
            ActivationStage::Activate { vg_name } => match finding {
                Finding::Output(_) => ActivationStage::Done {
                    result: Ok(Some(ActivatedVolumeGroup { vg_name: Some(vg_name) })),
                },
                _ => ActivationStage::Done { result: Err(LookupError::ActivationFailed) },
            },
            ActivationStage::Done { result } => ActivationStage::Done { result },
        };
        VgActivation { stage }
    }
}

/// The token for process memory that is locked: as long as it lives, no
/// memory of the process is paged out.
#[derive(Debug, PartialEq, Eq)]
pub struct LockedProcessMemory {}

/// What the attempt to lock all memory of the process came to, given what
/// `mlockall` returned and the error number that the system held then.
pub fn lock_process_memory(rc: i32, errno: i32) -> (r: Result<LockedProcessMemory, HibernateError>)
    ensures
        r is Ok <==> rc >= 0,
        r matches Err(e) ==> e == HibernateError::MlockallError(errno),
{
    if rc < 0 {
        return Err(HibernateError::MlockallError(errno));
    }
    Ok(LockedProcessMemory {  })
}

/// Without an active snapshot no program is run: the device from the table
/// of mounts is the answer of the search, and the activation ends without a
/// group.
pub proof fn lemma_no_snapshot_no_program(mounted: Seq<char>, finding: FindingView)
    requires
        !finding.snapshot_active(),
    ensures
        (SearchView::Snapshot { mounted }).step(finding).result() == Some(
            Ok::<Seq<char>, LookupError>(mounted),
        ),
        ActivationView::Snapshot.step(finding).result() == Some(
            Ok::<Option<Option<Seq<char>>>, LookupError>(None),
        ),
{
}

/// A search or an activation that is over asks for nothing more and stays
/// as it is.
pub proof fn lemma_over_is_over(
    search: SearchView,
    activation: ActivationView,
    finding: FindingView,
)
    ensures
        search.result() is Some <==> search.request() is None,
        search.result() is Some ==> search.step(finding) == search,
        activation.result() is Some <==> activation.request() is None,
        activation.result() is Some ==> activation.step(finding) == activation,
{
}

} // verus!
