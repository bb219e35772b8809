//! Single source of truth for every path and file name devserial derives.
//!
//! Nothing outside this module may build a database, archive, socket or PID
//! path, and nothing outside this module may sanitize a port name. A path is a
//! text with `/` between its components; Windows knows `\` besides, and reads
//! both alike.
use vstd::prelude::*;
use vstd::string::*;

use crate::clock;
use crate::export::now_for_filename;
use crate::platform::Platform;
use crate::text;
use crate::text::{chars_of, concat2, slice_of, starts_with};

verus! {

/// Environment variable overriding the data directory.
pub const ENV_DATA_DIR: &'static str = "DEVSERIAL_DATA_DIR";

/// Environment variable overriding the IPC endpoint.
pub const ENV_SOCKET: &'static str = "DEVSERIAL_SOCKET";

/// Environment variable overriding the configuration file path.
pub const ENV_CONFIG: &'static str = "DEVSERIAL_CONFIG";

// ---------------------------------------------------------------------------
// Paths as text
// ---------------------------------------------------------------------------

/// A path below a directory. An absolute path stays as it is.
pub open spec fn joined(dir: Seq<char>, name: Seq<char>) -> Seq<char> {
    if (name.len() > 0 && name[0] == '/') || dir.len() == 0 {
        name
    } else if dir.last() == '/' {
        dir + name
    } else {
        dir.push('/') + name
    }
}

/// A path below a directory.
pub fn join(dir: &str, name: &str) -> (r: String)
    ensures
        r@ == joined(dir@, name@),
{
    let d = chars_of(dir);
    let n = chars_of(name);
    if (n.len() > 0 && n[0] == '/') || d.len() == 0 {
        name.to_owned()
    } else {
        let mut out = dir.to_owned();
        if d[d.len() - 1] != '/' {
            out.push('/');
        }
        out.append(name);
        out
    }
}

/// The position behind the last `/`, or zero.
pub open spec fn after_slash(p: Seq<char>) -> int
    decreases p.len(),
{
    if p.len() == 0 || p.last() == '/' {
        p.len() as int
    } else {
        after_slash(p.drop_last())
    }
}

proof fn lemma_after_slash(p: Seq<char>)
    ensures
        0 <= after_slash(p) <= p.len(),
        after_slash(p) > 0 ==> p[after_slash(p) - 1] == '/',
        p.len() > 0 && p.last() != '/' ==> after_slash(p) < p.len(),
    decreases p.len(),
{
    if p.len() > 0 && p.last() != '/' {
        lemma_after_slash(p.drop_last());
    }
}

/// Where the file name of a path stands.
///
/// Trailing separators and `.` components do not count. A path that ends with
/// `..`, and one without any name, has no file name.
pub open spec fn file_span(p: Seq<char>) -> Option<(int, int)>
    decreases p.len(),
    when true via file_span_decreases
{
    if p.len() == 0 {
        None
    } else if p.last() == '/' {
        file_span(p.drop_last())
    } else {
        let start = after_slash(p);
        let name = p.skip(start);
        if name == seq!['.'] {
            if start == 0 {
                None
            } else {
                file_span(p.take(start))
            }
        } else if name == seq!['.', '.'] {
            None
        } else {
            Some((start, p.len() as int))
        }
    }
}

#[via_fn]
proof fn file_span_decreases(p: Seq<char>) {
    lemma_after_slash(p);
}

proof fn lemma_file_span(p: Seq<char>)
    ensures
        file_span(p) matches Some((a, b)) ==> 0 <= a < b <= p.len(),
    decreases p.len(),
{
    if p.len() > 0 {
        lemma_after_slash(p);
        if p.last() == '/' {
            lemma_file_span(p.drop_last());
        } else if after_slash(p) > 0 {
            lemma_file_span(p.take(after_slash(p)));
        }
    }
}

fn find_after_slash(p: &[char], len: usize) -> (r: usize)
    requires
        len <= p.len(),
    ensures
        r == after_slash(p@.take(len as int)),
        r <= len,
    decreases len,
{
    assert(p@.take(len as int).len() == len);
    if len == 0 || p[len - 1] == '/' {
        return len;
    }
    assert(p@.take(len as int).drop_last() =~= p@.take(len - 1));
    find_after_slash(p, len - 1)
}

fn find_file_span(p: &[char], len: usize) -> (r: Option<(usize, usize)>)
    requires
        len <= p.len(),
    ensures
        match r {
            Some((a, b)) => file_span(p@.take(len as int)) == Some((a as int, b as int)) && a < b
                && b <= len,
            None => file_span(p@.take(len as int)) is None,
        },
    decreases len,
{
    let ghost q = p@.take(len as int);
    if len == 0 {
        return None;
    }
    if p[len - 1] == '/' {
        assert(q.drop_last() =~= p@.take(len - 1));
        return find_file_span(p, len - 1);
    }
    let start = find_after_slash(p, len);
    proof {
        lemma_after_slash(q);
    }
    let ghost name = q.skip(start as int);
    if len - start == 1 && p[start] == '.' {
        assert(name =~= seq!['.']);
        if start == 0 {
            return None;
        }
        assert(q.take(start as int) =~= p@.take(start as int));
        return find_file_span(p, start);
    }
    proof {
        if name == seq!['.'] {
            assert(name.len() == 1 && name[0] == '.');
            assert(name[0] == p@[start as int]);
        }
        if name == seq!['.', '.'] {
            assert(name.len() == 2 && name[0] == '.' && name[1] == '.');
            assert(name[0] == p@[start as int] && name[1] == p@[start + 1]);
        }
    }
    if len - start == 2 && p[start] == '.' && p[start + 1] == '.' {
        assert(name =~= seq!['.', '.']);
        return None;
    }
    Some((start, len))
}

/// The position of the last dot, if there is one.
pub open spec fn last_dot(name: Seq<char>) -> Option<int>
    decreases name.len(),
{
    if name.len() == 0 {
        None
    } else if name.last() == '.' {
        Some(name.len() - 1)
    } else {
        last_dot(name.drop_last())
    }
}

/// The length of a file name without its extension. A leading dot does not
/// begin an extension.
pub open spec fn stem_len(name: Seq<char>) -> int {
    match last_dot(name) {
        Some(i) => if i == 0 {
            name.len() as int
        } else {
            i
        },
        None => name.len() as int,
    }
}

fn find_stem_end(p: &[char], start: usize, end: usize) -> (r: usize)
    requires
        start <= end <= p.len(),
    ensures
        r == start + stem_len(p@.subrange(start as int, end as int)),
        start <= r <= end,
{
    let ghost name = p@.subrange(start as int, end as int);
    let mut i: usize = end;
    assert(name.take(name.len() as int) =~= name);
    while i > start && p[i - 1] != '.'
        invariant
            start <= i <= end <= p.len(),
            name == p@.subrange(start as int, end as int),
            last_dot(name) == last_dot(name.take(i - start)),
        decreases i,
    {
        assert(name.take(i - start).drop_last() =~= name.take(i - start - 1));
        assert(name.take(i - start).last() == p@[i - 1]);
        i = i - 1;
    }
    proof {
        if i > start {
            assert(name.take(i - start).last() == p@[i - 1]);
        }
    }
    if i > start && i - 1 > start {
        i - 1
    } else {
        end
    }
}

/// How many leading characters of a path are its root or a leading `.`.
pub open spec fn before_body(q: Seq<char>) -> int {
    if q.len() > 0 && (q[0] == '/' || (q[0] == '.' && (q.len() == 1 || q[1] == '/'))) {
        1
    } else {
        0
    }
}

/// A path without trailing separators and `.` components; its root stays.
pub open spec fn trim_right(q: Seq<char>) -> Seq<char>
    decreases q.len(),
{
    if q.len() <= before_body(q) {
        q
    } else if q.last() == '/' || (q.last() == '.' && q.len() >= 2 && q[q.len() - 2] == '/') {
        trim_right(q.drop_last())
    } else {
        q
    }
}

/// The directory part in front of position `start`.
fn parent_of(p: &[char], start: usize) -> (r: String)
    requires
        start <= p.len(),
    ensures
        r@ == trim_right(p@.take(start as int)),
    decreases start,
{
    let ghost q = p@.take(start as int);
    let body: usize = if start > 0 && (p[0] == '/' || (p[0] == '.' && (start == 1 || p[1]
        == '/'))) {
        1
    } else {
        0
    };
    if start <= body {
        assert(q =~= p@.subrange(0, start as int));
        return slice_of(p, 0, start);
    }
    if p[start - 1] == '/' || (p[start - 1] == '.' && start >= 2 && p[start - 2] == '/') {
        assert(q.drop_last() =~= p@.take(start - 1));
        return parent_of(p, start - 1);
    }
    assert(q =~= p@.subrange(0, start as int));
    slice_of(p, 0, start)
}

/// A path with another extension; unchanged where it has no file name.
pub open spec fn replaced_extension(p: Seq<char>, ext: Seq<char>) -> Seq<char> {
    match file_span(p) {
        Some((a, b)) => p.take(a + stem_len(p.subrange(a, b))).push('.') + ext,
        None => p,
    }
}

/// A path with another file name.
pub open spec fn replaced_file_name(p: Seq<char>, name: Seq<char>) -> Seq<char> {
    match file_span(p) {
        Some((a, _)) => joined(trim_right(p.take(a)), name),
        None => joined(p, name),
    }
}

/// Replace the extension of a path.
pub fn with_extension(path: &str, ext: &str) -> (r: String)
    ensures
        r@ == replaced_extension(path@, ext@),
{
    let p = chars_of(path);
    assert(p@.take(p@.len() as int) =~= p@);
    match find_file_span(p.as_slice(), p.len()) {
        Some((a, b)) => {
            let end = find_stem_end(p.as_slice(), a, b);
            let mut out = slice_of(p.as_slice(), 0, end);
            assert(p@.subrange(0, end as int) =~= p@.take(end as int));
            out.push('.');
            out.append(ext);
            out
        },
        None => path.to_owned(),
    }
}

/// Replace the file name of a path.
pub fn with_file_name(path: &str, name: &str) -> (r: String)
    ensures
        r@ == replaced_file_name(path@, name@),
{
    let p = chars_of(path);
    assert(p@.take(p@.len() as int) =~= p@);
    match find_file_span(p.as_slice(), p.len()) {
        Some((a, _)) => {
            let parent = parent_of(p.as_slice(), a);
            join(parent.as_str(), name)
        },
        None => join(path, name),
    }
}

/// The file name of a path, where it has one.
pub open spec fn file_name_of(p: Seq<char>) -> Option<Seq<char>> {
    match file_span(p) {
        Some((a, b)) => Some(p.subrange(a, b)),
        None => None,
    }
}

/// The name of the file that a path leads to.
pub open spec fn is_file_name(path: &str, r: Option<String>) -> bool {
    match r {
        Some(s) => file_name_of(path@) == Some(s@),
        None => file_name_of(path@) is None,
    }
}

/// The file name of a path, where it has one.
pub fn file_name(path: &str) -> (r: Option<String>)
    ensures
        is_file_name(path, r),
{
    let p = chars_of(path);
    assert(p@.take(p@.len() as int) =~= p@);
    match find_file_span(p.as_slice(), p.len()) {
        Some((a, b)) => Some(slice_of(p.as_slice(), a, b)),
        None => None,
    }
}

/// The directory of a path; empty where the path names none.
pub open spec fn directory_of(p: Seq<char>) -> Seq<char> {
    match file_span(p) {
        Some((a, _)) => trim_right(p.take(a)),
        None => Seq::empty(),
    }
}

/// The directory of a path; empty where the path names none.
pub fn directory(path: &str) -> (r: String)
    ensures
        r@ == directory_of(path@),
{
    let p = chars_of(path);
    assert(p@.take(p@.len() as int) =~= p@);
    match find_file_span(p.as_slice(), p.len()) {
        Some((a, _)) => parent_of(p.as_slice(), a),
        None => String::new(),
    }
}

/// Whether a path has a component that leads upwards.
pub open spec fn leads_up(p: Seq<char>) -> bool {
    text::split_at_char(p, '/').contains(".."@)
}

/// Whether a path has a component that leads upwards.
pub fn climbs(path: &str) -> (r: bool)
    ensures
        r == leads_up(path@),
{
    let parts = text::split(path, '/');
    let mut i: usize = 0;
    while i < parts.len()
        invariant
            i <= parts.len(),
            text::texts(parts@) == text::split_at_char(path@, '/'),
            forall|j: int| 0 <= j < i ==> (#[trigger] parts@[j])@ != ".."@,
        decreases parts.len() - i,
    {
        if text::same(parts[i].as_str(), "..") {
            assert(text::texts(parts@)[i as int] == ".."@);
            return true;
        }
        i = i + 1;
    }
    assert forall|j: int| 0 <= j < text::texts(parts@).len() implies text::texts(parts@)[j]
        != ".."@ by {
        assert(parts@[j]@ != ".."@);
    }
    false
}

/// A path in the same directory, named after its stem with another extension;
/// where there is no file name, the extension is appended.
pub open spec fn sibling_with_extension(p: Seq<char>, ext: Seq<char>) -> Seq<char> {
    match file_span(p) {
        Some((a, b)) => {
            let name = p.subrange(a, b);
            let file = name.take(stem_len(name)).push('.') + ext;
            let parent = trim_right(p.take(a));
            if parent.len() == 0 {
                file
            } else {
                joined(parent, file)
            }
        },
        None => p.push('.') + ext,
    }
}

/// A path in the same directory, named after its stem with another extension.
pub fn sibling(path: &str, ext: &str) -> (r: String)
    ensures
        r@ == sibling_with_extension(path@, ext@),
{
    let p = chars_of(path);
    assert(p@.take(p@.len() as int) =~= p@);
    match find_file_span(p.as_slice(), p.len()) {
        Some((a, b)) => {
            let end = find_stem_end(p.as_slice(), a, b);
            let mut file = slice_of(p.as_slice(), a, end);
            assert(p@.subrange(a as int, end as int) =~= p@.subrange(a as int, b as int).take(
                end - a,
            ));
            file.push('.');
            file.append(ext);
            let parent = parent_of(p.as_slice(), a);
            if parent.as_str().is_empty() {
                file
            } else {
                join(parent.as_str(), file.as_str())
            }
        },
        None => {
            let mut out = path.to_owned();
            out.push('.');
            out.append(ext);
            out
        },
    }
}

// ---------------------------------------------------------------------------
// Derived names
// ---------------------------------------------------------------------------

/// A character that may stand in a file name, for any other an underscore.
pub open spec fn safe_char(c: char) -> char {
    if c == '/' || c == '\\' || c == ':' {
        '_'
    } else {
        c
    }
}

/// A port name with every separator replaced.
pub open spec fn sanitized(port: Seq<char>) -> Seq<char> {
    port.map_values(|c: char| safe_char(c))
}

/// Replace characters that cannot appear in a file name.
///
/// The rule is deliberately a superset across platforms so that a port yields
/// the same database name regardless of which entry point opened it.
pub fn sanitize_port_name(port: &str) -> (r: String)
    ensures
        r@ == sanitized(port@),
{
    let c = chars_of(port);
    let mut out = String::new();
    let mut i: usize = 0;
    while i < c.len()
        invariant
            i <= c.len(),
            c@ == port@,
            out@ == sanitized(port@).take(i as int),
        decreases c.len() - i,
    {
        let x = c[i];
        if x == '/' || x == '\\' || x == ':' {
            out.push('_');
        } else {
            out.push(x);
        }
        assert(sanitized(port@).take(i + 1) =~= sanitized(port@).take(i as int).push(
            safe_char(x),
        ));
        i = i + 1;
    }
    assert(sanitized(port@).take(port@.len() as int) =~= sanitized(port@));
    out
}

/// The path of the capture database for a port.
pub open spec fn db_path(data_dir: Seq<char>, port: Seq<char>) -> Seq<char> {
    joined(data_dir, sanitized(port) + ".db"@)
}

/// Path of the capture database for a port.
pub fn port_db_path(data_dir: &str, port: &str) -> (r: String)
    ensures
        r@ == db_path(data_dir@, port@),
{
    join(data_dir, concat2(sanitize_port_name(port).as_str(), ".db").as_str())
}

/// Where the state is kept.
pub open spec fn is_state_path(data_dir: &str, r: String) -> bool {
    r@ == joined(data_dir@, "config.db"@)
}

/// Path of the shared state database.
pub fn state_db_path(data_dir: &str) -> (r: String)
    ensures
        is_state_path(data_dir, r),
{
    join(data_dir, "config.db")
}

/// The path of a timestamped archive copy of a port's database.
pub open spec fn archive_name(
    archive_dir: Seq<char>,
    port: Seq<char>,
    timestamp: Seq<char>,
) -> Seq<char> {
    joined(archive_dir, sanitized(port).push('_') + timestamp + ".db"@)
}

/// Path of a timestamped archive copy of a port's database.
pub fn archive_path(archive_dir: &str, port: &str, timestamp: &str) -> (r: String)
    ensures
        r@ == archive_name(archive_dir@, port@, timestamp@),
{
    let mut name = sanitize_port_name(port);
    name.push('_');
    name.append(timestamp);
    name.append(".db");
    join(archive_dir, name.as_str())
}

/// Timestamp component used in archive file names.
pub fn archive_timestamp() -> (r: String)
    ensures
        clock::is_file_stamp(r@),
{
    now_for_filename()
}

/// What the process was started with and where it runs, as far as paths depend
/// on it.
///
/// A variable that is set to nothing counts as not set.
#[derive(Debug, Clone, PartialEq, Eq)]
pub struct Environment {
    pub platform: Platform,
    /// The value of [`ENV_DATA_DIR`].
    pub data_dir: Option<String>,
    /// The value of [`ENV_SOCKET`].
    pub socket: Option<String>,
    /// The value of [`ENV_CONFIG`].
    pub config: Option<String>,
    /// The value of `XDG_STATE_HOME`.
    pub state_home: Option<String>,
    /// The value of `XDG_RUNTIME_DIR`.
    pub runtime_dir: Option<String>,
    /// The value of `HOME`.
    pub home: Option<String>,
    /// The value of `LOCALAPPDATA`.
    pub local_app_data: Option<String>,
    /// The value of `APPDATA`.
    pub app_data: Option<String>,
    /// The directory for temporary files.
    pub temp_dir: String,
}

/// The value of a variable, where it is set to something.
pub open spec fn set_value(v: Option<String>) -> Option<Seq<char>> {
    match v {
        Some(s) => if s@.len() == 0 {
            None
        } else {
            Some(s@)
        },
        None => None,
    }
}

fn value_of(v: &Option<String>) -> (r: Option<String>)
    ensures
        match r {
            Some(s) => set_value(*v) == Some(s@),
            None => set_value(*v) is None,
        },
{
    match v {
        Some(s) => if s.as_str().is_empty() {
            None
        } else {
            Some(s.clone())
        },
        None => None,
    }
}

/// A path below a directory of a platform, for a name that is no absolute path.
///
/// Windows reads `/` and `\` alike and writes the latter. Behind a drive alone
/// it writes nothing: such a path begins in the current directory of the drive.
pub open spec fn joined_on(platform: Platform, dir: Seq<char>, name: Seq<char>) -> Seq<char> {
    if platform is Windows {
        if dir.len() == 0 || dir.last() == '/' || dir.last() == '\\' || (dir.len() == 2
            && drive_len(dir) == 2) {
            dir + name
        } else {
            dir.push('\\') + name
        }
    } else {
        joined(dir, name)
    }
}

/// How many characters of a path name a drive.
pub open spec fn drive_len(p: Seq<char>) -> int {
    if p.len() >= 2 && p[1] == ':' && ('a' <= p[0] <= 'z' || 'A' <= p[0] <= 'Z') {
        2
    } else {
        0
    }
}

fn find_drive_end(p: &[char]) -> (r: usize)
    ensures
        r == drive_len(p@),
        r <= p.len(),
{
    if p.len() >= 2 && p[1] == ':' && (('a' <= p[0] && p[0] <= 'z') || ('A' <= p[0] && p[0]
        <= 'Z')) {
        2
    } else {
        0
    }
}

/// A path below a directory of a platform.
pub fn join_on(platform: Platform, dir: &str, name: &str) -> (r: String)
    ensures
        r@ == joined_on(platform, dir@, name@),
{
    match platform {
        Platform::Windows => {
            let d = chars_of(dir);
            let n = d.len();
            let mut out = dir.to_owned();
            if n > 0 && d[n - 1] != '/' && d[n - 1] != '\\' && !(n == 2 && find_drive_end(
                d.as_slice(),
            ) == 2) {
                out.push('\\');
            }
            out.append(name);
            out
        },
        _ => join(dir, name),
    }
}

/// A path below a directory, or another one where there is no directory.
pub open spec fn below_or(
    platform: Platform,
    dir: Option<Seq<char>>,
    name: Seq<char>,
    otherwise: Seq<char>,
) -> Seq<char> {
    match dir {
        Some(d) => joined_on(platform, d, name),
        None => otherwise,
    }
}

fn pick(platform: Platform, dir: &Option<String>, name: &str, otherwise: &str) -> (r: String)
    ensures
        r@ == below_or(platform, set_value(*dir), name@, otherwise@),
{
    match value_of(dir) {
        Some(d) => join_on(platform, d.as_str(), name),
        None => otherwise.to_owned(),
    }
}

impl Environment {
    /// An environment in which nothing is set.
    pub fn empty(platform: Platform) -> (r: Environment)
        ensures
            r == (Environment {
                platform,
                data_dir: None,
                socket: None,
                config: None,
                state_home: None,
                runtime_dir: None,
                home: None,
                local_app_data: None,
                app_data: None,
                temp_dir: r.temp_dir,
            }),
            r.temp_dir@.len() == 0,
    {
        Environment {
            platform,
            data_dir: None,
            socket: None,
            config: None,
            state_home: None,
            runtime_dir: None,
            home: None,
            local_app_data: None,
            app_data: None,
            temp_dir: String::new(),
        }
    }

    /// The data directory of the platform.
    pub open spec fn platform_data_dir(self) -> Seq<char> {
        let home = set_value(self.home);
        match self.platform {
            Platform::MacOs => below_or(
                self.platform,
                home,
                "Library/Application Support/devserial"@,
                "./data"@,
            ),
            Platform::Linux => below_or(
                self.platform,
                set_value(self.state_home),
                "devserial"@,
                below_or(self.platform, home, ".local/state/devserial"@, "./data"@),
            ),
            Platform::Windows => below_or(
                self.platform,
                set_value(self.local_app_data),
                "devserial"@,
                "./data"@,
            ),
            _ => "./data"@,
        }
    }

    /// The default data directory.
    pub open spec fn spec_data_dir(self) -> Seq<char> {
        match set_value(self.data_dir) {
            Some(d) => d,
            None => self.platform_data_dir(),
        }
    }

    /// The default archive directory.
    pub open spec fn spec_archive_dir(self) -> Seq<char> {
        joined_on(self.platform, self.spec_data_dir(), "archive"@)
    }

    /// The directory of the user configuration file, where there is one.
    pub open spec fn spec_config_dir(self) -> Option<Seq<char>> {
        let (dir, name) = match self.platform {
            Platform::Windows => (set_value(self.app_data), "devserial"@),
            Platform::Other => (None, Seq::empty()),
            _ => (set_value(self.home), ".config/devserial"@),
        };
        match dir {
            Some(d) => Some(joined_on(self.platform, d, name)),
            None => None,
        }
    }

    /// The IPC endpoint of the platform.
    pub open spec fn platform_socket(self) -> Seq<char> {
        let home = set_value(self.home);
        match self.platform {
            Platform::MacOs => below_or(
                self.platform,
                home,
                "Library/Application Support/devserial/devserial.sock"@,
                "./devserial.sock"@,
            ),
            Platform::Linux => below_or(
                self.platform,
                set_value(self.runtime_dir),
                "devserial/devserial.sock"@,
                below_or(
                    self.platform,
                    home,
                    ".local/state/devserial/devserial.sock"@,
                    "./devserial.sock"@,
                ),
            ),
            Platform::Windows => "\\\\.\\pipe\\devserial"@,
            _ => joined_on(self.platform, self.temp_dir@, "devserial.sock"@),
        }
    }

    /// The default IPC endpoint.
    pub open spec fn spec_socket(self) -> Seq<char> {
        match set_value(self.socket) {
            Some(s) => s,
            None => self.platform_socket(),
        }
    }

    /// The PID file for an endpoint. A named pipe is no place in the file system,
    /// so its PID file lies in the data directory.
    pub open spec fn spec_pid_path(self, socket: Seq<char>) -> Seq<char> {
        if self.platform is Windows {
            if names_pipe(socket) {
                joined_on(self.platform, self.spec_data_dir(), "devserial.pid"@)
            } else {
                let n = drive_len(socket);
                socket.take(n) + replaced_extension(slashed(socket.skip(n)), "pid"@)
            }
        } else {
            replaced_extension(socket, "pid"@)
        }
    }
}

/// The GUI multiplexer endpoint for an IPC endpoint.
pub open spec fn gui_endpoint(platform: Platform, socket: Seq<char>) -> Seq<char> {
    if platform is Windows {
        if names_pipe(socket) {
            socket + "-gui"@
        } else {
            let n = drive_len(socket);
            socket.take(n) + replaced_file_name(slashed(socket.skip(n)), "gui.sock"@)
        }
    } else {
        replaced_file_name(socket, "gui.sock"@)
    }
}

/// A path of Windows with `/` between its components.
pub open spec fn slashed(p: Seq<char>) -> Seq<char> {
    p.map_values(
        |c: char|
            if c == '\\' {
                '/'
            } else {
                c
            },
    )
}

fn with_slashes(p: &[char], start: usize) -> (r: String)
    requires
        start <= p.len(),
    ensures
        r@ == slashed(p@.skip(start as int)),
{
    let mut out = String::new();
    let mut i: usize = start;
    assert(out@ =~= slashed(p@.subrange(start as int, start as int)));
    while i < p.len()
        invariant
            start <= i <= p.len(),
            out@ == slashed(p@.subrange(start as int, i as int)),
        decreases p.len() - i,
    {
        let ghost taken = p@.subrange(start as int, i as int);
        if p[i] == '\\' {
            out.push('/');
        } else {
            out.push(p[i]);
        }
        assert(p@.subrange(start as int, i + 1) =~= taken.push(p@[i as int]));
        assert(out@ =~= slashed(p@.subrange(start as int, i + 1)));
        i = i + 1;
    }
    assert(p@.subrange(start as int, i as int) =~= p@.skip(start as int));
    out
}

/// Platform default data directory, honouring [`ENV_DATA_DIR`].
pub fn default_data_dir(env: &Environment) -> (r: String)
    ensures
        r@ == env.spec_data_dir(),
{
    if let Some(d) = value_of(&env.data_dir) {
        return d;
    }
    let p = env.platform;
    match p {
        Platform::MacOs => pick(p, &env.home, "Library/Application Support/devserial", "./data"),
        Platform::Linux => {
            let user = pick(p, &env.home, ".local/state/devserial", "./data");
            pick(p, &env.state_home, "devserial", user.as_str())
        },
        Platform::Windows => pick(p, &env.local_app_data, "devserial", "./data"),
        _ => "./data".to_owned(),
    }
}

/// Default archive directory, derived from the data directory.
pub fn default_archive_dir(env: &Environment) -> (r: String)
    ensures
        r@ == env.spec_archive_dir(),
{
    join_on(env.platform, default_data_dir(env).as_str(), "archive")
}

/// Directory holding the user configuration file, if a home directory exists.
pub fn config_dir(env: &Environment) -> (r: Option<String>)
    ensures
        match r {
            Some(d) => env.spec_config_dir() == Some(d@),
            None => env.spec_config_dir() is None,
        },
{
    match env.platform {
        Platform::Windows => match value_of(&env.app_data) {
            Some(d) => Some(join_on(env.platform, d.as_str(), "devserial")),
            None => None,
        },
        Platform::Other => None,
        _ => match value_of(&env.home) {
            Some(h) => Some(join_on(env.platform, h.as_str(), ".config/devserial")),
            None => None,
        },
    }
}

/// Default IPC endpoint, honouring [`ENV_SOCKET`].
///
/// On Unix this is a filesystem path for a Unix domain socket. On Windows it is
/// a named pipe path.
pub fn default_socket_path(env: &Environment) -> (r: String)
    ensures
        r@ == env.spec_socket(),
{
    if let Some(s) = value_of(&env.socket) {
        return s;
    }
    let p = env.platform;
    match p {
        Platform::MacOs => pick(
            p,
            &env.home,
            "Library/Application Support/devserial/devserial.sock",
            "./devserial.sock",
        ),
        Platform::Linux => {
            let user = pick(
                p,
                &env.home,
                ".local/state/devserial/devserial.sock",
                "./devserial.sock",
            );
            pick(p, &env.runtime_dir, "devserial/devserial.sock", user.as_str())
        },
        Platform::Windows => "\\\\.\\pipe\\devserial".to_owned(),
        _ => join_on(p, env.temp_dir.as_str(), "devserial.sock"),
    }
}

/// Path of the daemon PID file for a given endpoint.
pub fn pid_path(socket: &str, env: &Environment) -> (r: String)
    ensures
        r@ == env.spec_pid_path(socket@),
{
    match env.platform {
        Platform::Windows => {
            if is_pipe_path(socket) {
                return join_on(env.platform, default_data_dir(env).as_str(), "devserial.pid");
            }
            let p = chars_of(socket);
            let n = find_drive_end(p.as_slice());
            let mut out = slice_of(p.as_slice(), 0, n);
            let rest = with_slashes(p.as_slice(), n);
            out.append(with_extension(rest.as_str(), "pid").as_str());
            assert(p@.subrange(0, n as int) =~= socket@.take(n as int));
            out
        },
        _ => with_extension(socket, "pid"),
    }
}

/// Path of the GUI multiplexer endpoint for a given IPC endpoint.
pub fn gui_socket_path(socket: &str, platform: Platform) -> (r: String)
    ensures
        r@ == gui_endpoint(platform, socket@),
{
    match platform {
        Platform::Windows => {
            if is_pipe_path(socket) {
                return concat2(socket, "-gui");
            }
            let p = chars_of(socket);
            let n = find_drive_end(p.as_slice());
            let mut out = slice_of(p.as_slice(), 0, n);
            let rest = with_slashes(p.as_slice(), n);
            out.append(with_file_name(rest.as_str(), "gui.sock").as_str());
            assert(p@.subrange(0, n as int) =~= socket@.take(n as int));
            out
        },
        _ => with_file_name(socket, "gui.sock"),
    }
}

/// Default GUI multiplexer endpoint.
pub fn default_gui_socket_path(env: &Environment) -> (r: String)
    ensures
        r@ == gui_endpoint(env.platform, env.spec_socket()),
{
    gui_socket_path(default_socket_path(env).as_str(), env.platform)
}

/// Whether a path denotes a Windows named pipe.
pub open spec fn names_pipe(path: Seq<char>) -> bool {
    text::begins_with(path, "\\\\.\\pipe\\"@)
}

/// Whether a path denotes a Windows named pipe.
pub fn is_pipe_path(path: &str) -> (r: bool)
    ensures
        r == names_pipe(path@),
{
    starts_with(path, "\\\\.\\pipe\\")
}

/// The file that the environment names.
pub open spec fn is_override(env: &Environment, r: Option<String>) -> bool {
    match (r, set_value(env.config)) {
        (Some(a), Some(b)) => a@ == b,
        (None, None) => true,
        _ => false,
    }
}

/// Explicit configuration file path from [`ENV_CONFIG`], if set.
pub fn config_override(env: &Environment) -> (r: Option<String>)
    ensures
        is_override(env, r),
{
    value_of(&env.config)
}

// ---------------------------------------------------------------------------
// What the names keep
// ---------------------------------------------------------------------------

/// A sanitized name holds no separator, so the database of a port lies directly
/// in the data directory, whatever the port is called.
pub proof fn sanitized_name_has_no_separator(port: Seq<char>)
    ensures
        sanitized(port).len() == port.len(),
        forall|i: int|
            0 <= i < port.len() ==> #[trigger] sanitized(port)[i] != '/' && sanitized(port)[i]
                != '\\' && sanitized(port)[i] != ':',
{
}

/// Sanitizing a name a second time changes nothing.
pub proof fn sanitizing_twice_changes_nothing(port: Seq<char>)
    ensures
        sanitized(sanitized(port)) == sanitized(port),
{
    assert(sanitized(sanitized(port)) =~= sanitized(port));
}

} // verus!
