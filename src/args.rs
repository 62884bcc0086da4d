//! The command-line arguments shared by the tracker and the repacker, and
//! how the tracker rewrites them when it hands a delivery over.

use vstd::prelude::*;

verus! {

/// The text of each argument.
pub open spec fn texts(args: Seq<String>) -> Seq<Seq<char>> {
    args.map_values(|a: String| a@)
}

pub open spec fn xcrdir_flag() -> Seq<char> {
    "--xcrdir"@
}

pub open spec fn xcrfile_flag() -> Seq<char> {
    "--xcrfile"@
}

pub open spec fn parse_all_flag() -> Seq<char> {
    "--parseAllFilesWithSubStr"@
}

pub open spec fn all_files_substr() -> Seq<char> {
    ","@
}

pub open spec fn help_suffix() -> Seq<char> {
    seq!['-', 'h', 'e', 'l', 'p']
}

/// The argument that follows the last occurrence of `flag` among the first
/// `n` arguments, the first argument counting as a possible flag too.
pub open spec fn flag_value(args: Seq<Seq<char>>, flag: Seq<char>, n: int) -> Option<Seq<char>>
    decreases n,
{
    if n <= 1 {
        None
    } else if args[n - 2] == flag {
        Some(args[n - 1])
    } else {
        flag_value(args, flag, n - 1)
    }
}

/// Argument `i` of the multi-file hand-over: `--xcrfile` becomes
/// `--parseAllFilesWithSubStr` and the argument after it `,`; the program
/// name is not passed on.
pub open spec fn all_files_arg(args: Seq<Seq<char>>, i: int) -> Seq<char> {
    if args[i] == xcrfile_flag() {
        parse_all_flag()
    } else if i >= 2 && args[i - 1] == xcrfile_flag() {
        all_files_substr()
    } else {
        args[i]
    }
}

/// The argument asks for help: it is `-h` or ends with `-help`.
pub open spec fn is_help(a: Seq<char>) -> bool {
    a == "-h"@ || (a.len() >= 5 && a.subrange(a.len() - 5, a.len() as int) == help_suffix())
}

/// The values of `--xcrdir` and `--xcrfile`, where both are given; the last
/// occurrence of each counts.
pub fn get_xcr_args(args: &Vec<String>) -> (r: Option<(String, String)>)
    ensures
        r is Some <==> (flag_value(texts(args@), xcrdir_flag(), args@.len() as int) is Some
            && flag_value(texts(args@), xcrfile_flag(), args@.len() as int) is Some),
        r matches Some((d, f)) ==> Some(d@) == flag_value(texts(args@), xcrdir_flag(), args@.len() as int)
            && Some(f@) == flag_value(texts(args@), xcrfile_flag(), args@.len() as int),
{
    proof {
        reveal_strlit("--xcrdir");
        reveal_strlit("--xcrfile");
    }
    let dir_flag = String::from_str("--xcrdir");
    let file_flag = String::from_str("--xcrfile");
    let ghost t = texts(args@);
    assert(xcrdir_flag()[5] != xcrfile_flag()[5]);
    let mut xcrdir: Option<String> = None;
    let mut xcrfile: Option<String> = None;
    if args.len() == 0 {
        return None;
    }
    let mut i: usize = 1;
    while i < args.len()
        invariant
            1 <= i <= args@.len(),
            t == texts(args@),
            dir_flag@ == xcrdir_flag(),
            file_flag@ == xcrfile_flag(),
            xcrdir_flag() != xcrfile_flag(),
            match xcrdir {
                Some(d) => Some(d@) == flag_value(t, xcrdir_flag(), i as int),
                None => flag_value(t, xcrdir_flag(), i as int) is None,
            },
            match xcrfile {
                Some(f) => Some(f@) == flag_value(t, xcrfile_flag(), i as int),
                None => flag_value(t, xcrfile_flag(), i as int) is None,
            },
        decreases args@.len() - i,
    {
        let prev = &args[i - 1];
        let cur = &args[i];
        assert(t[i - 1] == prev@ && t[i as int] == cur@);
        if *prev == dir_flag {
            xcrdir = Some(cur.clone());
        } else if *prev == file_flag {
            xcrfile = Some(cur.clone());
        }
        i = i + 1;
    }
    match (xcrdir, xcrfile) {
        (Some(d), Some(f)) => Some((d, f)),
        _ => None,
    }
}

/// The arguments of the single-file hand-over: all but the program name.
pub fn repack_one_args(args: &Vec<String>) -> (r: Vec<String>)
    requires
        args@.len() >= 1,
    ensures
        texts(r@) == texts(args@).drop_first(),
{
    let mut out: Vec<String> = Vec::new();
    let mut i: usize = 1;
    while i < args.len()
        invariant
            1 <= i <= args@.len(),
            texts(out@) == texts(args@).subrange(1, i as int),
        decreases args@.len() - i,
    {
        let ghost before = out@;
        out.push(args[i].clone());
        assert(out@ == before.push(args@[i as int]));
        assert(texts(out@) =~= texts(before).push(args@[i as int]@));
        assert(texts(out@) =~= texts(args@).subrange(1, i + 1));
        i = i + 1;
    }
    assert(texts(args@).subrange(1, i as int) =~= texts(args@).drop_first());
    out
}

/// The arguments of the multi-file hand-over: all but the program name,
/// with `--xcrfile <NAME>` turned into `--parseAllFilesWithSubStr ,`.
pub fn repack_all_args(args: &Vec<String>) -> (r: Vec<String>)
    requires
        args@.len() >= 1,
    ensures
        r@.len() == args@.len() - 1,
        forall|i: int| 0 <= i < r@.len() ==> #[trigger] r@[i]@ == all_files_arg(texts(args@), i + 1),
{
    proof {
        reveal_strlit("--xcrfile");
        reveal_strlit("--parseAllFilesWithSubStr");
        reveal_strlit(",");
    }
    let file_flag = String::from_str("--xcrfile");
    let ghost t = texts(args@);
    let mut out: Vec<String> = Vec::new();
    let mut i: usize = 1;
    while i < args.len()
        invariant
            1 <= i <= args@.len(),
            t == texts(args@),
            file_flag@ == xcrfile_flag(),
            out@.len() == i - 1,
            forall|j: int| 0 <= j < out@.len() ==> #[trigger] out@[j]@ == all_files_arg(t, j + 1),
        decreases args@.len() - i,
    {
        let cur = &args[i];
        assert(t[i as int] == cur@);
        assert(t[i - 1] == args@[i - 1]@);
        let next = if *cur == file_flag {
            String::from_str("--parseAllFilesWithSubStr")
        } else if i >= 2 && args[i - 1] == file_flag {
            String::from_str(",")
        } else {
            cur.clone()
        };
        assert(next@ == all_files_arg(t, i as int));
        out.push(next);
        i = i + 1;
    }
    out
}

/// Whether one of the arguments asks for help.
pub fn wants_help(args: &Vec<String>) -> (r: bool)
    ensures
        r == exists|i: int| 0 <= i < args@.len() && is_help(#[trigger] args@[i]@),
{
    proof {
        reveal_strlit("-h");
        reveal_strlit("-help");
    }
    let short = String::from_str("-h");
    let mut i: usize = 0;
    while i < args.len()
        invariant
            i <= args@.len(),
            short@ == "-h"@,
            forall|j: int| 0 <= j < i ==> !is_help(#[trigger] args@[j]@),
        decreases args@.len() - i,
    {
        let a = &args[i];
        if *a == short || ends_with_help(a.as_str()) {
            return true;
        }
        i = i + 1;
    }
    false
}

fn ends_with_help(a: &str) -> (r: bool)
    ensures
        r == (a@.len() >= 5 && a@.subrange(a@.len() - 5, a@.len() as int) == help_suffix()),
{
    let n = a.unicode_len();
    if n < 5 {
        return false;
    }
    let ghost tail = a@.subrange(n - 5, n as int);
    assert(tail[0] == a@[n - 5] && tail[1] == a@[n - 4] && tail[2] == a@[n - 3]);
    assert(tail[3] == a@[n - 2] && tail[4] == a@[n - 1]);
    let r = a.get_char(n - 5) == '-' && a.get_char(n - 4) == 'h' && a.get_char(n - 3) == 'e'
        && a.get_char(n - 2) == 'l' && a.get_char(n - 1) == 'p';
    if r {
        assert(tail =~= help_suffix());
    }
    r
}

/// `sub` occurs in `name` as a run of consecutive characters.
pub open spec fn has_substr(name: Seq<char>, sub: Seq<char>) -> bool {
    exists|i: int|
        0 <= i && i + sub.len() <= name.len() && #[trigger] name.subrange(i, i + sub.len()) == sub
}

/// Whether the file name `name` contains `sub`: the selection of files in
/// multi-file repacking. The empty text is in every name.
pub fn name_has_substr(name: &str, sub: &str) -> (r: bool)
    ensures
        r == has_substr(name@, sub@),
{
    let n = name.unicode_len();
    let m = sub.unicode_len();
    if m > n {
        assert forall|i: int| 0 <= i && i + sub@.len() <= name@.len() implies #[trigger] name@.subrange(
            i,
            i + sub@.len(),
        ) != sub@ by {}
        return false;
    }
    let mut i: usize = 0;
    while i <= n - m
        invariant
            n == name@.len(),
            m == sub@.len(),
            m <= n,
            i <= n - m + 1,
            forall|k: int| 0 <= k < i ==> #[trigger] name@.subrange(k, k + m) != sub@,
        decreases n - m + 1 - i,
    {
        let mut j: usize = 0;
        let mut same = true;
        while j < m && same
            invariant
                n == name@.len(),
                m == sub@.len(),
                i + m <= n,
                j <= m,
                forall|k: int| 0 <= k < j ==> name@[i + k] == sub@[k],
                !same ==> j < m && name@[i + j] != sub@[j as int],
            decreases m - j + (if same { 1int } else { 0int }),
        {
            if name.get_char(i + j) != sub.get_char(j) {
                same = false;
            } else {
                j = j + 1;
            }
        }
        if same {
            assert(name@.subrange(i as int, i + m) =~= sub@);
            return true;
        }
        assert(name@.subrange(i as int, i + m)[j as int] != sub@[j as int]);
        i = i + 1;
    }
    assert forall|k: int| 0 <= k && k + sub@.len() <= name@.len() implies #[trigger] name@.subrange(
        k,
        k + sub@.len(),
    ) != sub@ by {
        assert(k < i);
    }
    false
}

} // verus!
