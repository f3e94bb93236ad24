//! Core of a terminal document reader: the view state machine, the
//! reading-position store, key dispatch, the tick scheduler's decisions and
//! command-line parsing. Terminal I/O lives outside this library.
pub mod app;
pub mod cmd;
pub mod error;
pub mod input;
pub mod store;
pub mod ticker;
pub mod view;

use vstd::prelude::*;
use crate::app::{App, Session};
use crate::cmd::{parse_args, Cmd};
use crate::error::EError;
use crate::view::CurrentView;

verus! {

/// Parses the command line (program name first) and starts a session in
/// the Library view with the documents it names open, in order.
pub fn run(args: &Vec<String>) -> (r: Result<App, EError>)
    ensures
        parse_args(args@) matches Err(e) ==> r == Err::<App, EError>(e),
        parse_args(args@) is Ok && parse_args(args@)->Ok_0.open.len() <= 256 ==> (r matches Ok(a)
            && a.wf()
            && a@ == (Session {
            current: CurrentView::Library,
            open: parse_args(args@)->Ok_0.open,
            history: Seq::empty(),
            positions: Map::empty(),
        })),
        parse_args(args@) is Ok && parse_args(args@)->Ok_0.open.len() > 256 ==> r == Err::<App, EError>(
            EError::Other,
        ),
{
    match Cmd::from_args(args) {
        Ok(c) => c.run(),
        Err(e) => Err(e),
    }
}

} // verus!
