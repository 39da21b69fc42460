//! Command-line configuration of the server.
use vstd::prelude::*;

verus! {

/// Server configuration.
#[derive(Debug, Clone)]
pub struct Config {
    /// Path to the model file.
    pub model_path: String,
    /// Number of threads to use, if given.
    pub threads: Option<usize>,
    /// Whether to keep to the CPU.
    pub cpu_only: bool,
}

/// `s` consists of ASCII digits only.
pub open spec fn all_digits(s: Seq<char>) -> bool {
    forall|i: int| 0 <= i < s.len() ==> '0' <= #[trigger] s[i] <= '9'
}

/// The value of the decimal digits `s`.
pub open spec fn digits_value(s: Seq<char>) -> int
    decreases s.len(),
{
    if s.len() == 0 {
        0
    } else {
        digits_value(s.drop_last()) * 10 + (s.last() as int - '0' as int)
    }
}

/// The `usize` that `s` writes in decimal: an optional `+` followed by at
/// least one digit, with a value that fits.
pub open spec fn usize_of_text(s: Seq<char>) -> Option<usize> {
    let d = if s.len() > 0 && s[0] == '+' {
        s.subrange(1, s.len() as int)
    } else {
        s
    };
    if d.len() > 0 && all_digits(d) && digits_value(d) <= usize::MAX {
        Some(digits_value(d) as usize)
    } else {
        None
    }
}

/// Relies on `<usize as FromStr>::from_str`: an optional `+` and then decimal
/// digits only, rejected when empty or out of range.
#[verifier::external_body]
fn parse_usize(s: &str) -> (r: Option<usize>)
    ensures
        r == usize_of_text(s@),
{
    s.parse::<usize>().ok()
}

/// The thread count and CPU-only flag that the options `args[i..]` set,
/// starting from `threads` and `cpu_only`; `None` where an option is unknown,
/// lacks its value or has a bad one.
pub open spec fn parsed_options(args: Seq<String>, i: int, threads: Option<usize>, cpu_only: bool) -> Option<
    (Option<usize>, bool),
>
    decreases args.len() - i,
{
    if i >= args.len() {
        Some((threads, cpu_only))
    } else if args[i]@ == "--threads"@ {
        if i + 1 >= args.len() {
            None
        } else {
            match usize_of_text(args[i + 1]@) {
                Some(n) => if n == 0 {
                    None
                } else {
                    parsed_options(args, i + 2, Some(n), cpu_only)
                },
                None => None,
            }
        }
    } else if args[i]@ == "--cpu-only"@ {
        parsed_options(args, i + 1, threads, true)
    } else {
        None
    }
}

/// Reads the configuration from the command line `args`: the program name,
/// the model path, then `--threads <n>` (n > 0) and `--cpu-only` in any
/// order. Whether the model file exists is not checked here.
pub fn parse_arguments(args: Vec<String>) -> (r: Result<Config, String>)
    ensures
        args@.len() < 2 ==> r is Err,
        args@.len() >= 2 ==> match parsed_options(args@, 2, None, false) {
            Some((threads, cpu_only)) => if args@[1]@.len() == 0 {
                r is Err
            } else {
                r matches Ok(c) && c.model_path@ == args@[1]@ && c.threads == threads
                    && c.cpu_only == cpu_only
            },
            None => r is Err,
        },
{
    if args.len() == 0 {
        return Err(
            String::from_str(
                "No arguments provided. Usage: whisper-background-server <model-path> [--threads <number>] [--cpu-only]",
            ),
        );
    }
    if args.len() == 1 {
        return Err(
            String::from_str(
                "Model path is required. Usage: whisper-background-server <model-path> [--threads <number>] [--cpu-only]",
            ),
        );
    }
    let threads_flag = String::from_str("--threads");
    let cpu_flag = String::from_str("--cpu-only");
    proof {
        reveal_strlit("--threads");
        reveal_strlit("--cpu-only");
    }
    let model_path = args[1].clone();
    let mut threads: Option<usize> = None;
    let mut cpu_only = false;
    let mut i: usize = 2;
    while i < args.len()
        invariant
            2 <= i <= args@.len(),
            threads_flag@ == "--threads"@,
            cpu_flag@ == "--cpu-only"@,
            parsed_options(args@, 2, None, false) == parsed_options(args@, i as int, threads, cpu_only),
        decreases args@.len() - i,
    {
        let arg = &args[i];
        if *arg == threads_flag {
            if i + 1 >= args.len() {
                return Err(String::from_str("--threads option requires a value"));
            }
            let value = &args[i + 1];
            match parse_usize(value.as_str()) {
                Some(n) => {
                    if n == 0 {
                        return Err(String::from_str("Number of threads must be greater than 0"));
                    }
                    threads = Some(n);
                    i = i + 2;
                },
                None => {
                    let m = String::from_str("Invalid number of threads: ");
                    return Err(m.concat(value.as_str()));
                },
            }
        } else if *arg == cpu_flag {
            cpu_only = true;
            i = i + 1;
        } else {
            let m = String::from_str("Unknown argument: ");
            return Err(m.concat(arg.as_str()));
        }
    }
    if model_path.as_str().unicode_len() == 0 {
        return Err(String::from_str("Model path is required"));
    }
    Ok(Config { model_path, threads, cpu_only })
}

/// What the file system reports about a model path.
#[derive(Debug, Clone)]
pub struct ModelFileFacts {
    /// Whether the path exists.
    pub exists: bool,
    /// Whether it is a regular file.
    pub is_file: bool,
    /// Its extension, if it has one.
    pub extension: Option<String>,
    /// Its size in bytes, where the metadata could be read.
    pub size: Option<u64>,
}

/// The complaint about a model file at `path`, checked in the order
/// existence, kind, extension, size; `None` for a usable file: an existing
/// regular file with the extension `bin` and a non-zero size.
pub open spec fn model_file_problem(path: Seq<char>, facts: ModelFileFacts) -> Option<Seq<char>> {
    if !facts.exists {
        Some("Model file does not exist: "@ + path)
    } else if !facts.is_file {
        Some("Model path is not a file: "@ + path)
    } else {
        match facts.extension {
            None => Some("Model file has no extension: "@ + path),
            Some(e) => if e@ != "bin"@ {
                Some("Model file must have .bin extension, got: \""@ + e@ + "\""@)
            } else {
                match facts.size {
                    None => Some("Cannot read model file metadata: "@ + path),
                    Some(n) => if n == 0 {
                        Some("Model file is empty: "@ + path)
                    } else {
                        None
                    },
                }
            },
        }
    }
}

/// Checks the model file at `model_path` from what the file system reports
/// about it.
pub fn validate_model_path(model_path: &str, facts: &ModelFileFacts) -> (r: Result<(), String>)
    ensures
        match model_file_problem(model_path@, *facts) {
            Some(m) => r matches Err(e) && e@ == m,
            None => r is Ok,
        },
{
    if !facts.exists {
        return Err(String::from_str("Model file does not exist: ").concat(model_path));
    }
    if !facts.is_file {
        return Err(String::from_str("Model path is not a file: ").concat(model_path));
    }
    match &facts.extension {
        Some(e) => {
            let bin = String::from_str("bin");
            proof {
                reveal_strlit("bin");
            }
            if *e != bin {
                return Err(
                    String::from_str("Model file must have .bin extension, got: \"").concat(
                        e.as_str(),
                    ).concat("\""),
                );
            }
        },
        None => {
            return Err(String::from_str("Model file has no extension: ").concat(model_path));
        },
    }
    match facts.size {
        Some(n) => {
            if n == 0 {
                return Err(String::from_str("Model file is empty: ").concat(model_path));
            }
        },
        None => {
            return Err(String::from_str("Cannot read model file metadata: ").concat(model_path));
        },
    }
    Ok(())
}

} // verus!
