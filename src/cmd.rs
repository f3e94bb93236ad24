use vstd::prelude::*;
use vstd::string::StrSliceExecFns;
use crate::app::{App, Session};
use crate::error::EError;
use crate::view::CurrentView;

verus! {

/// The subcommand selected on the command line.
#[derive(Clone, Copy, Debug, PartialEq, Eq, Structural)]
pub enum Subcmd {
    Library,
}

impl Default for Subcmd {
    fn default() -> (s: Subcmd)
        ensures
            s == Subcmd::Library,
    {
        Subcmd::Library
    }
}

/// The parsed command line.
pub struct Cmd {
    /// The documents to open, in the order given.
    pub open: Vec<String>,
    pub library: Vec<String>,
    pub debug: bool,
    pub help: bool,
    pub cmd: Subcmd,
}

/// What the command line says, as values.
pub struct CmdModel {
    pub open: Seq<String>,
    pub debug: bool,
    pub help: bool,
}

pub open spec fn has_suffix(s: Seq<char>, suffix: Seq<char>) -> bool {
    s.len() >= suffix.len() && s.subrange(s.len() - suffix.len(), s.len() as int) == suffix
}

pub open spec fn is_file_flag(a: Seq<char>) -> bool {
    a == "-F"@ || a == "--file"@
}

pub open spec fn is_debug_flag(a: Seq<char>) -> bool {
    a == "-D"@ || a == "--debug"@
}

pub open spec fn is_help_flag(a: Seq<char>) -> bool {
    a == "-H"@ || a == "--help"@
}

/// Reads the arguments from position `i` on into `acc`. `-F`/`--file` takes
/// the next argument as a document, which must end in `.epub`; a trailing
/// `-F` is ignored. `-D`/`--debug` and `-H`/`--help` set their switches;
/// anything else, the program name and the subcommand included, is skipped.
pub open spec fn parse_from(args: Seq<String>, i: int, acc: CmdModel) -> Result<CmdModel, EError>
    decreases args.len() - i,
{
    if i < 0 || i >= args.len() {
        Ok(acc)
    } else if is_file_flag(args[i]@) && i + 1 < args.len() {
        if has_suffix(args[i + 1]@, ".epub"@) {
            parse_from(args, i + 2, CmdModel { open: acc.open.push(args[i + 1]), ..acc })
        } else {
            Err(EError::NotEpub(args[i + 1]))
        }
    } else if is_debug_flag(args[i]@) {
        parse_from(args, i + 1, CmdModel { debug: true, ..acc })
    } else if is_help_flag(args[i]@) {
        parse_from(args, i + 1, CmdModel { help: true, ..acc })
    } else {
        parse_from(args, i + 1, acc)
    }
}

/// The command line `args` (program name first) as values.
pub open spec fn parse_args(args: Seq<String>) -> Result<CmdModel, EError> {
    parse_from(args, 0, CmdModel { open: Seq::empty(), debug: false, help: false })
}

fn text_is(s: &str, t: &str) -> (r: bool)
    ensures
        r == (s@ == t@),
{
    let n = s.unicode_len();
    if n != t.unicode_len() {
        return false;
    }
    let mut i: usize = 0;
    while i < n
        invariant
            n == s@.len(),
            n == t@.len(),
            i <= n,
            forall|j: int| 0 <= j < i ==> s@[j] == t@[j],
        decreases n - i,
    {
        if s.get_char(i) != t.get_char(i) {
            return false;
        }
        i = i + 1;
    }
    assert(s@ =~= t@);
    true
}

fn text_ends_with(s: &str, suffix: &str) -> (r: bool)
    ensures
        r == has_suffix(s@, suffix@),
{
    let n = s.unicode_len();
    let m = suffix.unicode_len();
    if n < m {
        return false;
    }
    let mut i: usize = 0;
    while i < m
        invariant
            n == s@.len(),
            m == suffix@.len(),
            m <= n,
            i <= m,
            forall|j: int| 0 <= j < i ==> s@[n - m + j] == suffix@[j],
        decreases m - i,
    {
        if s.get_char(n - m + i) != suffix.get_char(i) {
            assert(s@.subrange(n - m, n as int)[i as int] != suffix@[i as int]);
            return false;
        }
        i = i + 1;
    }
    assert(s@.subrange(n - m, n as int) =~= suffix@);
    true
}

impl Cmd {
    /// A command line that opens `files`.
    pub fn new(files: Vec<String>) -> (c: Cmd)
        ensures
            c.open@ == files@,
            c.library@.len() == 0,
            !c.debug,
            !c.help,
            c.cmd == Subcmd::Library,
    {
        Cmd { open: files, library: Vec::new(), debug: false, help: false, cmd: Subcmd::Library }
    }

    /// Starts a session in the Library view with the documents of the
    /// command line open in slots 0, 1, ... in order; more than 256
    /// documents is an error.
    pub fn run(self) -> (r: Result<App, EError>)
        ensures
            self.open@.len() <= 256 ==> r is Ok,
            self.open@.len() > 256 ==> r == Err::<App, EError>(EError::Other),
            r matches Ok(a) ==> a.wf() && a@ == (Session {
                current: CurrentView::Library,
                open: self.open@,
                history: Seq::empty(),
                positions: Map::empty(),
            }),
    {
        if self.open.len() > 256 {
            return Err(EError::Other);
        }
        let mut app = App::new();
        assert(self.open@.take(0) =~= Seq::empty());
        let mut i: usize = 0;
        while i < self.open.len()
            invariant
                self.open@.len() <= 256,
                i <= self.open@.len(),
                app.wf(),
                app@ == (Session {
                    current: CurrentView::Library,
                    open: self.open@.take(i as int),
                    history: Seq::empty(),
                    positions: Map::empty(),
                }),
            decreases self.open.len() - i,
        {
            app.open_document(self.open[i].clone());
            assert(self.open@.take(i + 1) =~= self.open@.take(i as int).push(self.open@[i as int]));
            i = i + 1;
        }
        assert(self.open@.take(i as int) =~= self.open@);
        Ok(app)
    }

    /// Parses a command line, program name first. Whether the named files
    /// exist is for the caller to check.
    pub fn from_args(args: &Vec<String>) -> (r: Result<Cmd, EError>)
        ensures
            r is Ok <==> parse_args(args@) is Ok,
            r matches Ok(c) ==> parse_args(args@) matches Ok(m) && c.open@ == m.open && c.debug
                == m.debug && c.help == m.help && c.library@.len() == 0 && c.cmd == Subcmd::Library,
            r matches Err(e) ==> parse_args(args@) == Err::<CmdModel, EError>(e),
    {
        let mut c = Cmd::new(Vec::new());
        let ghost start = CmdModel { open: Seq::empty(), debug: false, help: false };
        let mut i: usize = 0;
        while i < args.len()
            invariant
                i <= args@.len() + 1,
                c.library@.len() == 0,
                c.cmd == Subcmd::Library,
                parse_args(args@) == parse_from(
                    args@,
                    i as int,
                    CmdModel { open: c.open@, debug: c.debug, help: c.help },
                ),
            decreases args@.len() + 1 - i,
        {
            let a = args[i].as_str();
            if (text_is(a, "-F") || text_is(a, "--file")) && i + 1 < args.len() {
                let f = &args[i + 1];
                if text_ends_with(f.as_str(), ".epub") {
                    c.open.push(f.clone());
                    i = i + 2;
                } else {
                    return Err(EError::NotEpub(f.clone()));
                }
            } else if text_is(a, "-D") || text_is(a, "--debug") {
                c.debug = true;
                i = i + 1;
            } else if text_is(a, "-H") || text_is(a, "--help") {
                c.help = true;
                i = i + 1;
            } else {
                i = i + 1;
            }
        }
        Ok(c)
    }
}

} // verus!
