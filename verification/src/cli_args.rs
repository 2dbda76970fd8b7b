//! The arguments of a small greeting program, and the report that it prints
//! of them.

use crate::decimal::{decimal_nat, push_decimal};
use vstd::prelude::*;
use vstd::string::StringExecFns;

verus! {

/// The arguments of the program.
#[derive(Debug)]
pub struct Args {
    /// Whom to greet.
    pub name: String,
    /// How many times to greet.
    pub count: u8,
    /// A file to read, if any.
    pub input: Option<String>,
    /// Whether to say more.
    pub verbose: bool,
}

/// How many times to greet when nothing is said.
pub const DEFAULT_COUNT: u8 = 1;

/// The line that reports the input file.
pub open spec fn input_line(input: Option<String>) -> Seq<char> {
    match input {
        Some(path) => "Input file: "@ + path@,
        None => "Input file: Not provided"@,
    }
}

/// The line that reports the verbose flag.
pub open spec fn verbose_line(verbose: bool) -> Seq<char> {
    if verbose {
        "Verbose: true"@
    } else {
        "Verbose: false"@
    }
}

/// One greeting: an empty line, then the greeting itself.
pub open spec fn greeting(name: Seq<char>) -> Seq<char> {
    "\nHello, "@ + name + "!"@
}

/// The lines of the report: a heading, one line for each argument, one
/// greeting for each of `count`, and a closing remark when `verbose` is set.
pub open spec fn report_lines(args: Args) -> Seq<Seq<char>> {
    seq![
        "--- Parsed Arguments ---"@,
        "Name: "@ + args.name@,
        "Count: "@ + decimal_nat(args.count as nat),
        input_line(args.input),
        verbose_line(args.verbose),
    ] + Seq::new(args.count as nat, |i: int| greeting(args.name@)) + if args.verbose {
        seq!["\nVerbose mode is ON."@]
    } else {
        Seq::empty()
    }
}

/// The texts of a list of strings.
pub open spec fn texts(lines: Seq<String>) -> Seq<Seq<char>> {
    Seq::new(lines.len(), |i: int| lines[i]@)
}

/// Builds the report of the arguments, line by line.
pub fn args_report(args: &Args) -> (lines: Vec<String>)
    ensures
        texts(lines@) == report_lines(*args),
{
    let mut lines: Vec<String> = Vec::new();
    lines.push(String::from_str("--- Parsed Arguments ---"));
    lines.push(String::from_str("Name: ").concat(args.name.as_str()));
    let mut count_line = String::from_str("Count: ");
    push_decimal(&mut count_line, args.count as u32);
    lines.push(count_line);
    let input = match &args.input {
        Some(path) => String::from_str("Input file: ").concat(path.as_str()),
        None => String::from_str("Input file: Not provided"),
    };
    lines.push(input);
    lines.push(
        if args.verbose {
            String::from_str("Verbose: true")
        } else {
            String::from_str("Verbose: false")
        },
    );
    let ghost head = texts(lines@);
    assert(head =~= seq![
        "--- Parsed Arguments ---"@,
        "Name: "@ + args.name@,
        "Count: "@ + decimal_nat(args.count as nat),
        input_line(args.input),
        verbose_line(args.verbose),
    ]);
    let mut greeted: u8 = 0;
    while greeted < args.count
        invariant
            greeted <= args.count,
            texts(lines@) == head + Seq::new(greeted as nat, |i: int| greeting(args.name@)),
        decreases args.count - greeted,
    {
        let ghost before = texts(lines@);
        let mut line = String::from_str("\nHello, ");
        line.append(args.name.as_str());
        line.append("!");
        lines.push(line);
        greeted = greeted + 1;
        assert(texts(lines@) =~= before.push(greeting(args.name@)));
        assert(texts(lines@) =~= head + Seq::new(greeted as nat, |i: int| greeting(args.name@)));
    }
    if args.verbose {
        let ghost before = texts(lines@);
        lines.push(String::from_str("\nVerbose mode is ON."));
        assert(texts(lines@) =~= before.push("\nVerbose mode is ON."@));
    }
    assert(texts(lines@) =~= report_lines(*args));
    lines
}

} // verus!
