//! Paths as strings with `/` as separator: joining, the parts of a file
//! name, and the choice of the configuration directory.

use crate::settings::option_view;
use crate::text::text_view;
use vstd::prelude::*;
use vstd::string::*;

verus! {

/// `path` appended to `base`: an absolute `path` replaces `base`, and a
/// separator is put between the two unless `base` is empty or ends in one.
pub open spec fn joined(base: Seq<char>, path: Seq<char>) -> Seq<char> {
    if path.len() > 0 && path[0] == '/' {
        path
    } else if base.len() > 0 && base.last() != '/' {
        base + seq!['/'] + path
    } else {
        base + path
    }
}

/// The position just after the last separator of `path`; 0 where it has none.
pub open spec fn file_name_start(path: Seq<char>) -> int
    decreases path.len(),
{
    if path.len() == 0 {
        0
    } else if path.last() == '/' {
        path.len() as int
    } else {
        file_name_start(path.drop_last())
    }
}

/// What follows the last separator of `path`.
pub open spec fn file_name(path: Seq<char>) -> Seq<char> {
    path.subrange(file_name_start(path), path.len() as int)
}

/// The position of the last dot of `name`; -1 where it has none.
pub open spec fn last_dot(name: Seq<char>) -> int
    decreases name.len(),
{
    if name.len() == 0 {
        -1
    } else if name.last() == '.' {
        name.len() - 1
    } else {
        last_dot(name.drop_last())
    }
}

/// Whether the file name splits at its last dot: it does unless it has no
/// dot, has its only dot in front, or is `..`.
pub open spec fn splits_at_dot(name: Seq<char>) -> bool {
    last_dot(name) > 0 && name != seq!['.', '.']
}

/// The extension of the file that `path` names: what follows the last dot of
/// the file name, where the name splits there.
pub open spec fn extension_of(path: Seq<char>) -> Option<Seq<char>> {
    let name = file_name(path);
    if splits_at_dot(name) {
        Some(name.subrange(last_dot(name) + 1, name.len() as int))
    } else {
        None
    }
}

/// The stem of the file that `path` names: the file name up to its last dot
/// where the name splits there, else the whole file name.
pub open spec fn file_stem_of(path: Seq<char>) -> Seq<char> {
    let name = file_name(path);
    if splits_at_dot(name) {
        name.subrange(0, last_dot(name))
    } else {
        name
    }
}

proof fn lemma_file_name_start(path: Seq<char>, k: int)
    requires
        0 <= k <= path.len(),
        forall|j: int| k <= j < path.len() ==> path[j] != '/',
        k == 0 || path[k - 1] == '/',
    ensures
        file_name_start(path) == k,
    decreases path.len(),
{
    if path.len() > k {
        lemma_file_name_start(path.drop_last(), k);
    }
}

proof fn lemma_last_dot(name: Seq<char>, d: int)
    requires
        -1 <= d < name.len(),
        forall|j: int| d < j < name.len() ==> name[j] != '.',
        d == -1 || name[d] == '.',
    ensures
        last_dot(name) == d,
    decreases name.len(),
{
    if name.len() > d + 1 {
        lemma_last_dot(name.drop_last(), d);
    }
}

/// Where the file name of `path` starts, where its last dot stands if it has
/// one, and how many characters `path` has.
pub(crate) fn scan_file_name(path: &str) -> (r: (usize, Option<usize>, usize))
    ensures
        r.0 == file_name_start(path@),
        r.0 <= r.2 == path@.len(),
        match r.1 {
            Some(d) => r.0 <= d < r.2 && path@[d as int] == '.' && last_dot(file_name(path@)) == d
                - r.0,
            None => last_dot(file_name(path@)) == -1,
        },
{
    let len = path.unicode_len();
    let mut start = len;
    let mut dot: Option<usize> = None;
    while start > 0
        invariant_except_break
            start <= len,
            len == path@.len(),
            forall|j: int| start <= j < len ==> path@[j] != '/',
            match dot {
                Some(d) => start <= d < len && path@[d as int] == '.' && forall|j: int|
                    d < j < len ==> path@[j] != '.',
                None => forall|j: int| start <= j < len ==> path@[j] != '.',
            },
        ensures
            start <= len,
            len == path@.len(),
            forall|j: int| start <= j < len ==> path@[j] != '/',
            start == 0 || path@[start - 1] == '/',
            match dot {
                Some(d) => start <= d < len && path@[d as int] == '.' && forall|j: int|
                    d < j < len ==> path@[j] != '.',
                None => forall|j: int| start <= j < len ==> path@[j] != '.',
            },
        decreases start,
    {
        let c = path.get_char(start - 1);
        if c == '/' {
            break ;
        }
        if c == '.' && dot.is_none() {
            dot = Some(start - 1);
        }
        start -= 1;
    }
    proof {
        lemma_file_name_start(path@, start as int);
        let name = file_name(path@);
        match dot {
            Some(d) => lemma_last_dot(name, d - start),
            None => lemma_last_dot(name, -1),
        }
    }
    (start, dot, len)
}

/// The extension of the file that `path` names, if its name has one.
pub fn extension(path: &str) -> (r: Option<String>)
    ensures
        r.is_some() == extension_of(path@).is_some(),
        r matches Some(e) ==> Some(e@) == extension_of(path@),
{
    let (start, dot, len) = scan_file_name(path);
    match dot {
        Some(d) => {
            if d > start && !(len - start == 2 && d == start + 1 && path.get_char(start) == '.') {
                proof {
                    let name = file_name(path@);
                    assert(name.len() == len - start);
                    assert(seq!['.', '.'].len() == 2);
                    assert(seq!['.', '.'][0] == '.');
                    assert(name.len() > 0 && name[0] == path@[start as int]);
                    assert(splits_at_dot(name));
                    assert(name.subrange(d - start + 1, name.len() as int) =~= path@.subrange(
                        d + 1,
                        len as int,
                    ));
                }
                Some(String::from_str(path.substring_char(d + 1, len)))
            } else {
                proof {
                    let name = file_name(path@);
                    assert(name.len() == len - start);
                    if d > start {
                        assert(name[1] == '.');
                        assert(name[0] == path@[start as int]);
                        lemma_two_dots(name);
                    }
                    assert(!splits_at_dot(name));
                }
                None
            }
        },
        None => None,
    }
}

proof fn lemma_two_dots(name: Seq<char>)
    requires
        name.len() == 2,
        name[1] == '.',
        last_dot(name) == 1,
    ensures
        splits_at_dot(name) <==> name[0] != '.',
{
    if name[0] == '.' {
        assert(name =~= seq!['.', '.']);
    } else {
        assert(seq!['.', '.'][0] == '.');
    }
}

/// The stem of the file that `path` names.
pub fn file_stem(path: &str) -> (r: String)
    ensures
        r@ == file_stem_of(path@),
{
    let (start, dot, len) = scan_file_name(path);
    let ghost name = file_name(path@);
    match dot {
        Some(d) => {
            if d > start && !(len - start == 2 && d == start + 1 && path.get_char(start) == '.') {
                proof {
                    assert(name.len() == len - start);
                    assert(seq!['.', '.'].len() == 2);
                    assert(seq!['.', '.'][0] == '.');
                    assert(name.len() > 0 && name[0] == path@[start as int]);
                    assert(splits_at_dot(name));
                    assert(name.subrange(0, d - start) =~= path@.subrange(start as int, d as int));
                }
                String::from_str(path.substring_char(start, d))
            } else {
                proof {
                    assert(name.len() == len - start);
                    if d > start {
                        assert(name[1] == '.');
                        assert(name[0] == path@[start as int]);
                        lemma_two_dots(name);
                    }
                    assert(!splits_at_dot(name));
                }
                String::from_str(path.substring_char(start, len))
            }
        },
        None => String::from_str(path.substring_char(start, len)),
    }
}

/// Appends `path` to `base`.
pub fn join(base: &str, path: &str) -> (r: String)
    ensures
        r@ == joined(base@, path@),
{
    let base_len = base.unicode_len();
    if path.unicode_len() > 0 && path.get_char(0) == '/' {
        String::from_str(path)
    } else if base_len > 0 && base.get_char(base_len - 1) != '/' {
        proof {
            reveal_strlit("/");
            assert("/"@ =~= seq!['/']);
        }
        String::from_str(base).concat("/").concat(path)
    } else {
        String::from_str(base).concat(path)
    }
}

/// No directory could be chosen: none was named, and there is no home
/// directory to look under.
#[derive(Clone, Copy, Debug, PartialEq, Eq)]
pub struct MissingHome;

/// The directory below a base directory, and below `.config` in the home
/// directory, that holds the configuration.
pub open spec fn app_dir() -> Seq<char> {
    "xi"@
}

/// The directory in the home directory that holds the configuration
/// directories of applications.
pub open spec fn home_config_dir() -> Seq<char> {
    ".config"@
}

/// The configuration directory: the one named outright where there is one;
/// else the application's directory below the base directory where that is
/// named; else the application's directory below `.config` in the home
/// directory; and none where the home directory is not known either.
pub open spec fn config_dir_of(
    explicit: Option<Seq<char>>,
    base: Option<Seq<char>>,
    home: Option<Seq<char>>,
) -> Option<Seq<char>> {
    match explicit {
        Some(dir) => Some(dir),
        None => match base {
            Some(dir) => Some(joined(dir, app_dir())),
            None => match home {
                Some(dir) => Some(joined(joined(dir, home_config_dir()), app_dir())),
                None => None,
            },
        },
    }
}

/// Chooses the configuration directory from the directory that was named
/// outright, the base directory for configuration and the home directory,
/// as far as each is known.
pub fn config_dir_impl(xi_var: Option<&str>, xdg_var: Option<&str>, home: Option<&str>) -> (r: Result<
    String,
    MissingHome,
>)
    ensures
        match r {
            Ok(dir) => config_dir_of(text_view(xi_var), text_view(xdg_var), text_view(home)) == Some(
                dir@,
            ),
            Err(_) => config_dir_of(text_view(xi_var), text_view(xdg_var), text_view(home)) is None,
        },
{
    match xi_var {
        Some(dir) => Ok(String::from_str(dir)),
        None => match xdg_var {
            Some(dir) => Ok(join(dir, "xi")),
            None => match home {
                Some(dir) => {
                    let config = join(dir, ".config");
                    Ok(join(config.as_str(), "xi"))
                },
                None => Err(MissingHome),
            },
        },
    }
}

/// Chooses the configuration directory from the values of the variables
/// `XI_CONFIG_DIR`, `XDG_CONFIG_HOME` and `HOME`, as far as each is set.
pub fn get_config_dir(xi_var: &Option<String>, xdg_var: &Option<String>, home: &Option<String>) -> (r:
    Result<String, MissingHome>)
    ensures
        match r {
            Ok(dir) => config_dir_of(option_view(*xi_var), option_view(*xdg_var), option_view(*home))
                == Some(dir@),
            Err(_) => config_dir_of(option_view(*xi_var), option_view(*xdg_var), option_view(*home))
                is None,
        },
{
    let xi = match xi_var {
        Some(s) => Some(s.as_str()),
        None => None,
    };
    let xdg = match xdg_var {
        Some(s) => Some(s.as_str()),
        None => None,
    };
    let home = match home {
        Some(s) => Some(s.as_str()),
        None => None,
    };
    config_dir_impl(xi, xdg, home)
}

} // verus!
