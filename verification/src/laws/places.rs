//! Where files lie.
use vstd::prelude::*;
use vstd::string::*;

use crate::paths;
use crate::paths::Environment;
use crate::platform::Platform;
use crate::text;

verus! {

// ---------------------------------------------------------------------------
// Paths
// ---------------------------------------------------------------------------

/// A part of a path: something without a separator in it.
pub open spec fn is_part(s: Seq<char>) -> bool {
    s.len() > 0 && forall|i: int| 0 <= i < s.len() ==> #[trigger] s[i] != '/'
}

/// The path of a directory that is written out: it does not end in a separator
/// nor in a dot.
pub open spec fn is_directory(s: Seq<char>) -> bool {
    s.len() > 0 && s.last() != '/' && s.last() != '.'
}

/// Behind the last separator the last part begins.
proof fn last_part(dir: Seq<char>, name: Seq<char>)
    requires
        forall|i: int| 0 <= i < name.len() ==> #[trigger] name[i] != '/',
    ensures
        paths::after_slash(dir.push('/') + name) == dir.len() + 1,
        paths::after_slash(name) == 0,
    decreases name.len(),
{
    let p = dir.push('/') + name;
    if name.len() == 0 {
        assert(p =~= dir.push('/'));
    } else {
        let shorter = name.drop_last();
        assert(p.drop_last() =~= dir.push('/') + shorter);
        last_part(dir, shorter);
    }
}

/// A name is put behind its directory with one separator between; one that starts
/// at the root stands alone.
pub proof fn names_are_put_behind_directories(dir: Seq<char>, name: Seq<char>)
    requires
        name.len() > 0,
    ensures
        name[0] == '/' ==> paths::joined(dir, name) == name,
        name[0] != '/' && dir.len() == 0 ==> paths::joined(dir, name) == name,
        name[0] != '/' && dir.len() > 0 && dir.last() == '/' ==> paths::joined(dir, name) == dir
            + name,
        name[0] != '/' && dir.len() > 0 && dir.last() != '/' ==> paths::joined(dir, name) == dir
            + seq!['/'] + name,
{
    assert(dir.push('/') + name =~= dir + seq!['/'] + name);
}

/// The name of a file is the last part of its path, and its directory what stands
/// before.
pub proof fn a_path_has_a_name_and_a_directory(
    dir: Seq<char>,
    name: Seq<char>,
    path: &str,
    r: Option<String>,
)
    requires
        is_directory(dir),
        is_part(name),
        name != seq!['.'],
        name != seq!['.', '.'],
        path@ == dir + seq!['/'] + name,
        paths::is_file_name(path, r),
    ensures
        r matches Some(s) && s@ == name,
        paths::directory_of(path@) == dir,
        paths::file_name_of(name) == Some(name),
        paths::directory_of(name).len() == 0,
{
    let p = path@;
    assert(p =~= dir.push('/') + name);
    last_part(dir, name);
    assert(p.last() == name.last());
    assert(p.skip(dir.len() as int + 1) =~= name);
    assert(p.subrange(dir.len() as int + 1, p.len() as int) =~= name);
    assert(name.skip(0) =~= name);
    assert(name.subrange(0, name.len() as int) =~= name);
    assert(p.take(dir.len() as int + 1) =~= dir.push('/'));
    directories_are_trimmed(dir);
    assert(name.take(0) =~= Seq::<char>::empty());
}

/// A directory stays as it is without the separator behind it.
proof fn directories_are_trimmed(dir: Seq<char>)
    requires
        is_directory(dir),
    ensures
        paths::trim_right(dir.push('/')) == dir,
{
    let q = dir.push('/');
    assert(q.drop_last() =~= dir);
    reveal_with_fuel(paths::trim_right, 3);
    if dir.len() == 1 {
        assert(paths::before_body(dir) == 0);
    }
}

/// The last dot stands before what has none.
proof fn last_dot_stands(stem: Seq<char>, ext: Seq<char>)
    requires
        forall|i: int| 0 <= i < ext.len() ==> #[trigger] ext[i] != '.',
    ensures
        paths::last_dot(stem.push('.') + ext) == Some(stem.len() as int),
        paths::last_dot(ext) is None,
    decreases ext.len(),
{
    let n = stem.push('.') + ext;
    if ext.len() == 0 {
        assert(n =~= stem.push('.'));
    } else {
        assert(n.drop_last() =~= stem.push('.') + ext.drop_last());
        last_dot_stands(stem, ext.drop_last());
    }
}

/// The extension of a file is what stands behind its last dot; another takes its
/// place, and is put behind where there was none.
pub proof fn extensions_are_replaced(
    dir: Seq<char>,
    stem: Seq<char>,
    old_ext: Seq<char>,
    ext: Seq<char>,
)
    requires
        is_directory(dir),
        is_part(stem),
        is_part(old_ext),
        forall|i: int| 0 <= i < old_ext.len() ==> #[trigger] old_ext[i] != '.',
    ensures
        paths::replaced_extension(dir + seq!['/'] + stem + seq!['.'] + old_ext, ext) == dir + seq![
            '/',
        ] + stem + seq!['.'] + ext,
        paths::sibling_with_extension(dir + seq!['/'] + stem + seq!['.'] + old_ext, ext) == dir
            + seq!['/'] + stem + seq!['.'] + ext,
        paths::replaced_extension(dir + seq!['/'] + old_ext, ext) == dir + seq!['/'] + old_ext
            + seq!['.'] + ext,
        paths::sibling_with_extension(dir + seq!['/'] + old_ext, ext) == dir + seq!['/'] + old_ext
            + seq!['.'] + ext,
{
    let name = stem.push('.') + old_ext;
    let p = dir + seq!['/'] + stem + seq!['.'] + old_ext;
    assert(p =~= dir.push('/') + name);
    assert forall|i: int| 0 <= i < name.len() implies #[trigger] name[i] != '/' by {
        if i < stem.len() {
            assert(stem[i] != '/');
        } else if i > stem.len() {
            assert(old_ext[i - stem.len() - 1] != '/');
        }
    }
    last_part(dir, name);
    last_dot_stands(stem, old_ext);
    let a = dir.len() as int + 1;
    assert(p.last() == old_ext.last());
    assert(p.skip(a) =~= name);
    assert(p.subrange(a, p.len() as int) =~= name);
    assert(name.len() >= 3);
    assert(paths::file_span(p) == Some((a, p.len() as int)));
    assert(p.take(a + stem.len()) =~= dir.push('/') + stem);
    assert(name.take(stem.len() as int) =~= stem);
    assert(p.take(a) =~= dir.push('/'));
    directories_are_trimmed(dir);
    assert(paths::replaced_extension(p, ext) =~= dir + seq!['/'] + stem + seq!['.'] + ext);
    let file = stem.push('.') + ext;
    assert(file[0] == stem[0]);
    assert(paths::sibling_with_extension(p, ext) =~= dir + seq!['/'] + stem + seq!['.'] + ext);
    let q = dir + seq!['/'] + old_ext;
    assert(q =~= dir.push('/') + old_ext);
    last_part(dir, old_ext);
    assert(old_ext[0] != '.');
    assert(old_ext != seq!['.'] && old_ext != seq!['.', '.']) by {
        assert(seq!['.'][0] == '.' && seq!['.', '.'][0] == '.');
    }
    assert(q.last() == old_ext.last());
    assert(q.skip(a) =~= old_ext);
    assert(q.subrange(a, q.len() as int) =~= old_ext);
    assert(q.take(q.len() as int) =~= q);
    assert(q.take(a) =~= dir.push('/'));
    assert(old_ext.take(old_ext.len() as int) =~= old_ext);
    assert(paths::replaced_extension(q, ext) =~= q + seq!['.'] + ext);
    assert((old_ext.push('.') + ext)[0] == old_ext[0]);
    assert(paths::sibling_with_extension(q, ext) =~= q + seq!['.'] + ext);
}

/// A file is renamed within its directory.
pub proof fn files_are_renamed_in_place(dir: Seq<char>, old_name: Seq<char>, name: Seq<char>)
    requires
        is_directory(dir),
        is_part(old_name),
        old_name != seq!['.'],
        old_name != seq!['.', '.'],
        is_part(name),
    ensures
        paths::replaced_file_name(dir + seq!['/'] + old_name, name) == dir + seq!['/'] + name,
{
    let p = dir + seq!['/'] + old_name;
    assert(p =~= dir.push('/') + old_name);
    last_part(dir, old_name);
    assert(p.last() == old_name.last());
    assert(p.skip(dir.len() as int + 1) =~= old_name);
    assert(p.take(dir.len() as int + 1) =~= dir.push('/'));
    directories_are_trimmed(dir);
    assert(dir.push('/') + name =~= dir + seq!['/'] + name);
}

/// A path that has `..` as a part leads up, wherever the part stands; one without
/// two dots side by side does not.
pub proof fn two_dots_lead_up(a: Seq<char>, b: Seq<char>, p: Seq<char>)
    ensures
        paths::leads_up(".."@),
        paths::leads_up(a + "/../"@ + b),
        paths::leads_up("../"@ + b),
        paths::leads_up(a + "/.."@),
        !text::occurs_in(p, ".."@) ==> !paths::leads_up(p),
{
    reveal_strlit("..");
    reveal_strlit("../");
    reveal_strlit("/..");
    reveal_strlit("/../");
    let up = ".."@;
    text::lemma_split_none(up, '/');
    assert(text::split_at_char(up, '/')[0] == up);
    let ahead = up.push('/') + b;
    text::lemma_split_add(up, b, '/');
    assert(text::split_at_char(ahead, '/')[0] == up);
    assert("../"@ + b =~= ahead);
    text::lemma_split_add(a, ahead, '/');
    let n = text::split_at_char(a, '/').len() as int;
    assert(a + "/../"@ + b =~= a.push('/') + ahead);
    assert(text::split_at_char(a.push('/') + ahead, '/')[n] == up);
    text::lemma_split_add(a, up, '/');
    assert(a + "/.."@ =~= a.push('/') + up);
    assert(text::split_at_char(a.push('/') + up, '/')[n] == up);
    if paths::leads_up(p) {
        let parts = text::split_at_char(p, '/');
        let i = choose|i: int| 0 <= i < parts.len() && parts[i] == up;
        parts_stand_in_the_whole(p, '/', i);
    }
}

/// A part of a text stands in it, and the last part at its end.
proof fn parts_stand_in_the_whole(s: Seq<char>, c: char, i: int)
    requires
        0 <= i < text::split_at_char(s, c).len(),
    ensures
        text::occurs_in(s, text::split_at_char(s, c)[i]),
        text::finishes_with(s, text::split_at_char(s, c).last()),
        text::split_at_char(s, c).len() > 0,
    decreases s.len(),
{
    let parts = text::split_at_char(s, c);
    if s.len() == 0 {
        assert(text::occurs_at(s, parts[0], 0)) by {
            assert(s.subrange(0, 0) =~= parts[0]);
        }
        assert(s.skip(0) =~= parts.last());
    } else {
        let shorter = s.drop_last();
        let before = text::split_at_char(shorter, c);
        text::lemma_split_add(Seq::empty(), shorter, c);
        parts_stand_in_the_whole(shorter, c, before.len() - 1);
        let last = parts.last();
        if s.last() == c {
            assert(s.skip(s.len() as int) =~= last);
        } else {
            let from = shorter.len() - before.last().len();
            assert(shorter.skip(from) == before.last());
            assert(s.skip(from) =~= before.last().push(s.last()));
        }
        let from = s.len() - last.len();
        assert(s.subrange(from, from + last.len()) =~= s.skip(from));
        assert(text::occurs_at(s, last, from));
        if i < parts.len() - 1 {
            assert(parts[i] == before[i]);
            parts_stand_in_the_whole(shorter, c, i);
            let at = choose|at: int| text::occurs_at(shorter, before[i], at);
            assert(s.subrange(at, at + before[i].len()) =~= shorter.subrange(
                at,
                at + before[i].len(),
            ));
            assert(text::occurs_at(s, parts[i], at));
        }
    }
}

// ---------------------------------------------------------------------------
// Files of the program
// ---------------------------------------------------------------------------

/// The lines of a port lie in the data directory under the name of the port, with
/// an underscore for what cannot stand in a name; an archive carries its time.
pub proof fn captures_are_named_after_ports(
    dir: Seq<char>,
    port: Seq<char>,
    time: Seq<char>,
    i: int,
)
    requires
        is_directory(dir),
        0 <= i < port.len(),
    ensures
        ({
            let name = paths::sanitized(port);
            &&& name.len() == port.len()
            &&& port[i] == '/' || port[i] == '\\' || port[i] == ':' ==> name[i] == '_'
            &&& port[i] != '/' && port[i] != '\\' && port[i] != ':' ==> name[i] == port[i]
            &&& paths::db_path(dir, port) == dir + seq!['/'] + name + seq!['.', 'd', 'b']
            &&& paths::archive_name(dir, port, time) == dir + seq!['/'] + name + seq!['_'] + time
                + seq!['.', 'd', 'b']
        }),
{
    reveal_strlit(".db");
    let name = paths::sanitized(port);
    assert(".db"@ =~= seq!['.', 'd', 'b']);
    assert(name[0] != '/');
    assert(paths::db_path(dir, port) =~= dir + seq!['/'] + name + seq!['.', 'd', 'b']);
    let file = name.push('_') + time + ".db"@;
    assert(file[0] == name[0]);
    assert(paths::archive_name(dir, port, time) =~= dir + seq!['/'] + name + seq!['_'] + time
        + seq!['.', 'd', 'b']);
}

/// A variable counts where it is set to something.
pub proof fn empty_variables_do_not_count(v: Option<String>)
    ensures
        paths::set_value(v) is Some <==> (v matches Some(s) && s@.len() > 0),
        v matches Some(s) ==> s@.len() > 0 ==> paths::set_value(v) == Some(s@),
{
}

/// On Windows names are put behind directories with a backslash, elsewhere with a
/// slash.
pub proof fn platforms_have_their_separator(
    platform: Platform,
    dir: Seq<char>,
    name: Seq<char>,
)
    requires
        dir.len() > 2,
        dir.last() != '/',
        dir.last() != '\\',
        name.len() > 0,
        name[0] != '/',
    ensures
        platform is Windows ==> paths::joined_on(platform, dir, name) == dir + seq!['\\'] + name,
        !(platform is Windows) ==> paths::joined_on(platform, dir, name) == dir + seq!['/'] + name,
{
    assert(dir.push('/') + name =~= dir + seq!['/'] + name);
    assert(dir.push('\\') + name =~= dir + seq!['\\'] + name);
}

/// The data lie where the environment says, and otherwise where the platform
/// keeps such: below the home directory, the state directory or the local data of
/// the user, and in `./data` where none of them is known. Archives lie below.
pub proof fn data_have_their_place(env: Environment)
    ensures
        ({
            let home = paths::set_value(env.home);
            let state = paths::set_value(env.state_home);
            let local = paths::set_value(env.local_app_data);
            &&& paths::set_value(env.data_dir) matches Some(d) ==> env.spec_data_dir() == d
            &&& paths::set_value(env.data_dir) is None ==> match env.platform {
                Platform::MacOs => env.spec_data_dir() == (match home {
                    Some(h) => paths::joined(h, "Library/Application Support/devserial"@),
                    None => "./data"@,
                }),
                Platform::Linux => env.spec_data_dir() == (match (state, home) {
                    (Some(s), _) => paths::joined(s, "devserial"@),
                    (None, Some(h)) => paths::joined(h, ".local/state/devserial"@),
                    (None, None) => "./data"@,
                }),
                Platform::Windows => env.spec_data_dir() == (match local {
                    Some(l) => paths::joined_on(Platform::Windows, l, "devserial"@),
                    None => "./data"@,
                }),
                Platform::OtherUnix => env.spec_data_dir() == "./data"@,
                Platform::Other => env.spec_data_dir() == "./data"@,
            }
            &&& env.spec_archive_dir() == paths::joined_on(
                env.platform,
                env.spec_data_dir(),
                "archive"@,
            )
        }),
{
}

/// The configuration of the user lies below the home directory, on Windows below
/// the data of the applications, and nowhere where the platform is not known.
pub proof fn the_configuration_has_its_place(env: Environment)
    ensures
        match env.platform {
            Platform::Windows => env.spec_config_dir() == (match paths::set_value(env.app_data) {
                Some(d) => Some(paths::joined_on(Platform::Windows, d, "devserial"@)),
                None => None,
            }),
            Platform::Other => env.spec_config_dir() is None,
            _ => env.spec_config_dir() == (match paths::set_value(env.home) {
                Some(d) => Some(paths::joined(d, ".config/devserial"@)),
                None => None,
            }),
        },
{
}

/// The daemon is reached where the environment says, and otherwise where the
/// platform keeps such.
pub proof fn the_daemon_has_its_place(env: Environment)
    ensures
        ({
            let home = paths::set_value(env.home);
            let runtime = paths::set_value(env.runtime_dir);
            &&& paths::set_value(env.socket) matches Some(s) ==> env.spec_socket() == s
            &&& paths::set_value(env.socket) is None ==> match env.platform {
                Platform::MacOs => env.spec_socket() == (match home {
                    Some(h) => paths::joined(
                        h,
                        "Library/Application Support/devserial/devserial.sock"@,
                    ),
                    None => "./devserial.sock"@,
                }),
                Platform::Linux => env.spec_socket() == (match (runtime, home) {
                    (Some(r), _) => paths::joined(r, "devserial/devserial.sock"@),
                    (None, Some(h)) => paths::joined(h, ".local/state/devserial/devserial.sock"@),
                    (None, None) => "./devserial.sock"@,
                }),
                Platform::Windows => env.spec_socket() == "\\\\.\\pipe\\devserial"@,
                _ => env.spec_socket() == paths::joined(env.temp_dir@, "devserial.sock"@),
            }
        }),
{
}

/// Beside the socket of the daemon lie its process number and the socket of the
/// windows.
pub proof fn companions_lie_beside_the_socket(
    env: Environment,
    dir: Seq<char>,
    stem: Seq<char>,
    ext: Seq<char>,
)
    requires
        !(env.platform is Windows),
        is_directory(dir),
        is_part(stem),
        is_part(ext),
        forall|i: int| 0 <= i < ext.len() ==> #[trigger] ext[i] != '.',
    ensures
        ({
            let socket = dir + seq!['/'] + stem + seq!['.'] + ext;
            &&& env.spec_pid_path(socket) == dir + seq!['/'] + stem + ".pid"@
            &&& paths::gui_endpoint(env.platform, socket) == dir + "/gui.sock"@
        }),
{
    reveal_strlit("pid");
    reveal_strlit(".pid");
    reveal_strlit("gui.sock");
    reveal_strlit("/gui.sock");
    let socket = dir + seq!['/'] + stem + seq!['.'] + ext;
    extensions_are_replaced(dir, stem, ext, "pid"@);
    assert(".pid"@ =~= seq!['.'] + "pid"@);
    assert(dir + seq!['/'] + stem + seq!['.'] + "pid"@ =~= dir + seq!['/'] + stem + ".pid"@);
    let name = stem + seq!['.'] + ext;
    assert forall|i: int| 0 <= i < name.len() implies #[trigger] name[i] != '/' by {
        if i < stem.len() {
            assert(stem[i] != '/');
        } else if i > stem.len() {
            assert(ext[i - stem.len() - 1] != '/');
        }
    }
    assert(name.len() >= 3);
    assert(socket =~= dir + seq!['/'] + name);
    files_are_renamed_in_place(dir, name, "gui.sock"@);
    assert(dir + seq!['/'] + "gui.sock"@ =~= dir + "/gui.sock"@);
}

/// On Windows a pipe of the daemon has its process number in the data directory,
/// and the pipe of the windows is named after it.
pub proof fn companions_of_a_pipe(env: Environment, name: Seq<char>)
    requires
        env.platform is Windows,
    ensures
        ({
            let pipe = "\\\\.\\pipe\\"@ + name;
            &&& paths::names_pipe(pipe)
            &&& env.spec_pid_path(pipe) == paths::joined_on(
                env.platform,
                env.spec_data_dir(),
                "devserial.pid"@,
            )
            &&& paths::gui_endpoint(env.platform, pipe) == pipe + "-gui"@
        }),
{
    let front = "\\\\.\\pipe\\"@;
    assert((front + name).take(front.len() as int) =~= front);
}

/// What is kept of the program lies in one file of the data directory.
pub proof fn the_state_has_its_place(dir: &str, r: String)
    requires
        paths::is_state_path(dir, r),
        is_directory(dir@),
    ensures
        r@ == dir@ + "/config.db"@,
{
    reveal_strlit("config.db");
    reveal_strlit("/config.db");
    assert(r@ =~= dir@ + "/config.db"@);
}

/// The environment may name the file of the configuration.
pub proof fn the_environment_names_a_file(env: &Environment, r: Option<String>)
    requires
        paths::is_override(env, r),
    ensures
        r is Some <==> (env.config matches Some(c) && c@.len() > 0),
        r matches Some(s) ==> s@ == env.config->0@,
        paths::ENV_DATA_DIR@ == "DEVSERIAL_DATA_DIR"@,
        paths::ENV_SOCKET@ == "DEVSERIAL_SOCKET"@,
        paths::ENV_CONFIG@ == "DEVSERIAL_CONFIG"@,
{
}

/// On Windows a path may start with a drive: a letter and a colon. Backslashes
/// separate as slashes do.
pub proof fn windows_has_drives(p: Seq<char>, i: int)
    ensures
        p.len() >= 2 && ('a' <= p[0] <= 'z' || 'A' <= p[0] <= 'Z') && p[1] == ':' ==> paths::drive_len(
            p,
        ) == 2,
        p.len() < 2 || p[1] != ':' ==> paths::drive_len(p) == 0,
        paths::slashed(p).len() == p.len(),
        0 <= i < p.len() && p[i] == '\\' ==> paths::slashed(p)[i] == '/',
        0 <= i < p.len() && p[i] != '\\' ==> paths::slashed(p)[i] == p[i],
{
}

} // verus!
