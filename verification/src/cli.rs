//! The command line: `peekdown [--stdin] [--title TITLE] [FILE]`.

use vstd::prelude::*;
use crate::text::str_eq;

verus! {

/// What the command line asks for.
#[derive(Debug, PartialEq, Eq)]
pub struct CliOptions {
    /// The file to open once the front end is ready.
    pub file: Option<String>,
    /// Whether to show what standard input holds.
    pub read_stdin: bool,
    /// The title under which standard input is shown.
    pub title: Option<String>,
}

/// [`CliOptions`] with texts as sequences of characters.
pub struct CliModel {
    pub file: Option<Seq<char>>,
    pub read_stdin: bool,
    pub title: Option<Seq<char>>,
}

impl View for CliOptions {
    type V = CliModel;

    open spec fn view(&self) -> CliModel {
        CliModel {
            file: match self.file {
                Some(f) => Some(f@),
                None => None,
            },
            read_stdin: self.read_stdin,
            title: match self.title {
                Some(t) => Some(t@),
                None => None,
            },
        }
    }
}

/// Reading the arguments from index `i` on, with `acc` what the earlier
/// ones said: `--stdin` sets the flag; `--title` takes the next argument
/// as the title (a later one wins) and is ignored when it is the last;
/// the first other argument is the file, and the rest are ignored.
pub open spec fn parse_from(args: Seq<Seq<char>>, i: int, acc: CliModel) -> CliModel
    decreases args.len() - i,
{
    if i < 0 || i >= args.len() {
        acc
    } else if args[i] == "--stdin"@ {
        parse_from(args, i + 1, CliModel { read_stdin: true, ..acc })
    } else if args[i] == "--title"@ {
        if i + 1 < args.len() {
            parse_from(args, i + 2, CliModel { title: Some(args[i + 1]), ..acc })
        } else {
            parse_from(args, i + 1, acc)
        }
    } else {
        parse_from(
            args,
            i + 1,
            if acc.file is None {
                CliModel { file: Some(args[i]), ..acc }
            } else {
                acc
            },
        )
    }
}

/// Later arguments never undo earlier ones: once a file is chosen it stays
/// the file, and once `--stdin` is seen standard input stays asked for.
pub proof fn lemma_earlier_choices_stay(args: Seq<Seq<char>>, i: int, acc: CliModel)
    ensures
        acc.file is Some ==> parse_from(args, i, acc).file == acc.file,
        acc.read_stdin ==> parse_from(args, i, acc).read_stdin,
    decreases args.len() - i,
{
    if i < 0 || i >= args.len() {
    } else if args[i] == "--stdin"@ {
        lemma_earlier_choices_stay(args, i + 1, CliModel { read_stdin: true, ..acc });
    } else if args[i] == "--title"@ {
        if i + 1 < args.len() {
            lemma_earlier_choices_stay(args, i + 2, CliModel { title: Some(args[i + 1]), ..acc });
        } else {
            lemma_earlier_choices_stay(args, i + 1, acc);
        }
    } else {
        let next = if acc.file is None {
            CliModel { file: Some(args[i]), ..acc }
        } else {
            acc
        };
        lemma_earlier_choices_stay(args, i + 1, next);
    }
}

/// `--stdin` at any position where an option is read asks for standard
/// input, whatever came before and whatever follows.
pub proof fn lemma_stdin_flag_is_kept(args: Seq<Seq<char>>, i: int, acc: CliModel)
    requires
        0 <= i < args.len(),
        args[i] == "--stdin"@,
    ensures
        parse_from(args, i, acc).read_stdin,
{
    lemma_earlier_choices_stay(args, i + 1, CliModel { read_stdin: true, ..acc });
}

/// Without `--stdin` among the remaining arguments, standard input is
/// asked for only if it already was.
pub proof fn lemma_no_stdin_flag(args: Seq<Seq<char>>, i: int, acc: CliModel)
    requires
        forall|j: int| i <= j < args.len() ==> args[j] != "--stdin"@,
    ensures
        parse_from(args, i, acc).read_stdin == acc.read_stdin,
    decreases args.len() - i,
{
    if i < 0 || i >= args.len() {
    } else if args[i] == "--title"@ {
        if i + 1 < args.len() {
            lemma_no_stdin_flag(args, i + 2, CliModel { title: Some(args[i + 1]), ..acc });
        } else {
            lemma_no_stdin_flag(args, i + 1, acc);
        }
    } else {
        let next = if acc.file is None {
            CliModel { file: Some(args[i]), ..acc }
        } else {
            acc
        };
        lemma_no_stdin_flag(args, i + 1, next);
    }
}

/// `--title` followed by a value, at a position where an option is read,
/// gives a title (the last such one wins), and leaves the file and the
/// flag to the other arguments.
pub proof fn lemma_title_option(args: Seq<Seq<char>>, i: int, acc: CliModel)
    requires
        0 <= i,
        i + 1 < args.len(),
        args[i] == "--title"@,
    ensures
        parse_from(args, i, acc) == parse_from(args, i + 2, CliModel { title: Some(args[i + 1]), ..acc }),
        parse_from(args, i, acc).title is Some,
{
    reveal_strlit("--title");
    reveal_strlit("--stdin");
    assert("--title"@[2] != "--stdin"@[2]);
    lemma_title_stays(args, i + 2, CliModel { title: Some(args[i + 1]), ..acc });
}

/// Once a title is set it stays set.
proof fn lemma_title_stays(args: Seq<Seq<char>>, i: int, acc: CliModel)
    requires
        acc.title is Some,
    ensures
        parse_from(args, i, acc).title is Some,
    decreases args.len() - i,
{
    if i < 0 || i >= args.len() {
    } else if args[i] == "--stdin"@ {
        lemma_title_stays(args, i + 1, CliModel { read_stdin: true, ..acc });
    } else if args[i] == "--title"@ {
        if i + 1 < args.len() {
            lemma_title_stays(args, i + 2, CliModel { title: Some(args[i + 1]), ..acc });
        } else {
            lemma_title_stays(args, i + 1, acc);
        }
    } else {
        let next = if acc.file is None {
            CliModel { file: Some(args[i]), ..acc }
        } else {
            acc
        };
        lemma_title_stays(args, i + 1, next);
    }
}

/// An argument that is neither `--stdin` nor `--title`, read where an
/// option is read before any file was chosen, is the file.
pub proof fn lemma_first_file_wins(args: Seq<Seq<char>>, i: int, acc: CliModel)
    requires
        0 <= i < args.len(),
        args[i] != "--stdin"@,
        args[i] != "--title"@,
        acc.file is None,
    ensures
        parse_from(args, i, acc).file == Some(args[i]),
{
    lemma_earlier_choices_stay(args, i + 1, CliModel { file: Some(args[i]), ..acc });
}

/// The arguments as a whole: `--stdin` first asks for standard input,
/// a first argument that is no option is the file, and an empty command
/// line asks for nothing.
pub proof fn lemma_command_line(args: Seq<Seq<char>>)
    ensures
        args.len() > 0 && args[0] == "--stdin"@ ==> parsed_args(args).read_stdin,
        args.len() > 0 && args[0] != "--stdin"@ && args[0] != "--title"@ ==> parsed_args(args).file
            == Some(args[0]),
        (forall|j: int| 0 <= j < args.len() ==> args[j] != "--stdin"@) ==> !parsed_args(
            args,
        ).read_stdin,
        args.len() == 0 ==> parsed_args(args) == (CliModel { file: None, read_stdin: false, title: None }),
{
    let init = CliModel { file: None, read_stdin: false, title: None };
    if args.len() > 0 {
        if args[0] == "--stdin"@ {
            lemma_stdin_flag_is_kept(args, 0, init);
        } else if args[0] != "--title"@ {
            lemma_first_file_wins(args, 0, init);
        }
    }
    if forall|j: int| 0 <= j < args.len() ==> args[j] != "--stdin"@ {
        lemma_no_stdin_flag(args, 0, init);
    }
}

/// What a whole argument list (without the program's name) asks for.
pub open spec fn parsed_args(args: Seq<Seq<char>>) -> CliModel {
    parse_from(args, 0, CliModel { file: None, read_stdin: false, title: None })
}

/// The texts of a list of strings.
pub open spec fn texts_of(args: Seq<String>) -> Seq<Seq<char>> {
    args.map_values(|s: String| s@)
}

/// Reads the command line (without the program's name).
pub fn parse_args(args: &Vec<String>) -> (o: CliOptions)
    ensures
        o@ == parsed_args(texts_of(args@)),
{
    let ghost all = texts_of(args@);
    let mut o = CliOptions { file: None, read_stdin: false, title: None };
    let mut i: usize = 0;
    while i < args.len()
        invariant
            all == texts_of(args@),
            i <= args.len(),
            parsed_args(all) == parse_from(all, i as int, o@),
        decreases args.len() - i,
    {
        let a = args[i].as_str();
        assert(all[i as int] == a@);
        if str_eq(a, "--stdin") {
            o.read_stdin = true;
            i = i + 1;
        } else if str_eq(a, "--title") {
            if i + 1 < args.len() {
                assert(all[i + 1] == args@[i + 1]@);
                o.title = Some(args[i + 1].clone());
                i = i + 2;
            } else {
                i = i + 1;
            }
        } else {
            if o.file.is_none() {
                o.file = Some(args[i].clone());
            }
            i = i + 1;
        }
    }
    o
}

} // verus!
