//! Where a command reads its JSON input and writes its JSON output.
use vstd::prelude::*;

verus! {

/// Where JSON input is read from.
#[derive(Debug, Clone)]
pub enum InputSource {
    File(String),
    Stdin,
}

impl InputSource {
    /// `-` reads standard input; any other argument names a file.
    pub fn from_arg(arg: &str) -> (r: InputSource)
        ensures
            arg@ == "-"@ ==> r is Stdin,
            arg@ != "-"@ ==> (r matches InputSource::File(p) && p@ == arg@),
    {
        let dash = "-";
        proof {
            reveal_strlit("-");
        }
        if crate::text::str_eq(arg, dash) {
            InputSource::Stdin
        } else {
            InputSource::File(String::from_str(arg))
        }
    }
}

/// Where JSON output is written.
#[derive(Debug, Clone)]
pub enum OutputDest {
    Stdout,
    File(String),
}

impl OutputDest {
    /// Standard output unless a file is named.
    pub fn from_arg(arg: Option<&str>) -> (r: OutputDest)
        ensures
            arg is None ==> r is Stdout,
            arg matches Some(a) ==> (r matches OutputDest::File(p) && p@ == a@),
    {
        match arg {
            Some(path) => OutputDest::File(String::from_str(path)),
            None => OutputDest::Stdout,
        }
    }
}

/// What every command runs with: where to write, where to read, whether the
/// run is a rehearsal, and whether output is pretty-printed.
#[derive(Debug, Clone)]
pub struct AppContext {
    output: OutputDest,
    input: Option<InputSource>,
    dry_run: bool,
    pretty: bool,
}

impl AppContext {
    pub closed spec fn output_spec(self) -> OutputDest {
        self.output
    }

    pub closed spec fn input_spec(self) -> Option<InputSource> {
        self.input
    }

    pub closed spec fn dry_run_spec(self) -> bool {
        self.dry_run
    }

    pub closed spec fn pretty_spec(self) -> bool {
        self.pretty
    }

    pub fn new(output: OutputDest, input: Option<InputSource>, dry_run: bool, pretty: bool) -> (r:
        AppContext)
        ensures
            r.output_spec() == output,
            r.input_spec() == input,
            r.dry_run_spec() == dry_run,
            r.pretty_spec() == pretty,
    {
        AppContext { output, input, dry_run, pretty }
    }

    pub fn dry_run(&self) -> (r: bool)
        ensures
            r == self.dry_run_spec(),
    {
        self.dry_run
    }

    pub fn pretty(&self) -> (r: bool)
        ensures
            r == self.pretty_spec(),
    {
        self.pretty
    }

    pub fn output(&self) -> (r: &OutputDest)
        ensures
            *r == self.output_spec(),
    {
        &self.output
    }

    pub fn input(&self) -> (r: &Option<InputSource>)
        ensures
            *r == self.input_spec(),
    {
        &self.input
    }
}

} // verus!
