//! The builder gate: compiler interface and diagnostics handling.
//!
//! Loading a component is gated behind a successful build. The build itself
//! is toolchain work done by a [`Compiler`] implementation outside this
//! library; what is specified and verified here is how raw compiler output
//! is parsed into structured diagnostics and rewritten into messages a user
//! can act on.

use vstd::prelude::*;

use crate::errors::{MorpheusError, MorpheusResult};
use crate::text::{
    append_dec, contains_at, contains_sub, dec_rep, find_sub, first_match, lemma_first_match,
    lines_of, lines_spec,
    parse_usize, parse_usize_spec, spec_contains, split_spec, split_str, starts_with_sub,
    trim_spec, trim_str,
};

verus! {

/// A compiler that can turn source code into an artifact.
///
/// Implemented outside the library by the toolchain runner; nothing is
/// assumed of an implementation beyond its signatures.
pub trait Compiler {
    /// Compile source code to artifact bytes, or report diagnostics.
    fn compile(&self, source: &str) -> MorpheusResult<Vec<u8>>;

    /// Check that source code type-checks without producing an artifact.
    fn check(&self, source: &str) -> MorpheusResult<()>;
}

/// Severity of a reported diagnostic.
#[derive(Debug, Clone, Copy, PartialEq, Eq, Structural)]
pub enum Severity {
    Error,
    Warning,
    Note,
}

/// A compilation diagnostic with its source location, when one was
/// reported.
#[derive(Debug, Clone)]
pub struct CompilationError {
    /// Diagnostic message.
    pub message: String,
    /// File path, if available.
    pub file: Option<String>,
    /// Line number (1-indexed).
    pub line: Option<usize>,
    /// Column number (1-indexed).
    pub column: Option<usize>,
    /// Severity of the diagnostic.
    pub severity: Severity,
}

/// The mathematical content of a diagnostic.
pub ghost struct ErrorModel {
    /// Diagnostic message.
    pub message: Seq<char>,
    /// File path, if available.
    pub file: Option<Seq<char>>,
    /// Line number.
    pub line: Option<int>,
    /// Column number.
    pub column: Option<int>,
    /// Severity of the diagnostic.
    pub severity: Severity,
}

impl View for CompilationError {
    type V = ErrorModel;

    open spec fn view(&self) -> ErrorModel {
        ErrorModel {
            message: self.message@,
            file: match self.file {
                Some(f) => Some(f@),
                None => None,
            },
            line: match self.line {
                Some(l) => Some(l as int),
                None => None,
            },
            column: match self.column {
                Some(c) => Some(c as int),
                None => None,
            },
            severity: self.severity,
        }
    }
}

/// How a diagnostic message is rewritten for users: messages matching a
/// known compiler complaint get an explanatory hint appended, everything
/// else passes through unchanged.
pub open spec fn friendly_spec(m: Seq<char>) -> Seq<char> {
    if spec_contains(m, "mismatched types"@) {
        m
            + "\n\n\u{f0}\u{178}\u{2019}\u{a1} The code is trying to use a value of one type where a different type is expected."@
    } else if spec_contains(m, "cannot find"@) {
        m
            + "\n\n\u{f0}\u{178}\u{2019}\u{a1} The code is referencing something that doesn't exist or wasn't imported."@
    } else if spec_contains(m, "expected"@) && spec_contains(m, "found"@) {
        m
            + "\n\n\u{f0}\u{178}\u{2019}\u{a1} The types don't match - check that variables and function returns have the correct types."@
    } else if spec_contains(m, "unresolved import"@) {
        m
            + "\n\n\u{f0}\u{178}\u{2019}\u{a1} The code is trying to import something that doesn't exist. Check the import path."@
    } else if spec_contains(m, "unused"@) {
        m
            + "\n\n\u{f0}\u{178}\u{2019}\u{a1} This is defined but never used. Consider removing it or using it somewhere."@
    } else if spec_contains(m, "missing lifetime"@) {
        m
            + "\n\n\u{f0}\u{178}\u{2019}\u{a1} Rust needs help understanding how long references live. This is an advanced feature."@
    } else if spec_contains(m, "borrowed value"@) || spec_contains(
        m,
        "does not live long enough"@,
    ) {
        m
            + "\n\n\u{f0}\u{178}\u{2019}\u{a1} The code is trying to use a reference that no longer exists. Try simplifying the ownership."@
    } else if spec_contains(m, "trait"@) && spec_contains(m, "not implemented"@) {
        m
            + "\n\n\u{f0}\u{178}\u{2019}\u{a1} The type needs to implement a trait (interface) to be used in this way."@
    } else {
        m
    }
}

/// How a diagnostic is enriched before it is emitted: collected help text
/// is appended, and a known location is put in front.
pub open spec fn enrich_spec(e: ErrorModel, help: Seq<char>) -> ErrorModel {
    let with_help = if help.len() > 0 {
        e.message + "\n\n"@ + help
    } else {
        e.message
    };
    let with_location = match (e.line, e.column) {
        (Some(l), Some(c)) => "At line "@ + dec_rep(l) + ", column "@ + dec_rep(c) + ":\n"@
            + with_help,
        _ => with_help,
    };
    ErrorModel {
        message: with_location,
        file: e.file,
        line: e.line,
        column: e.column,
        severity: e.severity,
    }
}

/// The message drawn from a diagnostic header line: when it carries an
/// error code in brackets, the code and the rest of the line are joined as
/// `code: rest`; otherwise the line stands as it is.
pub open spec fn error_message_of(line: Seq<char>) -> Seq<char> {
    if spec_contains(line, "["@) && spec_contains(line, "]:"@) && first_match(line, "["@) + 1
        <= first_match(line, "]:"@) {
        let bs = first_match(line, "["@);
        let be = first_match(line, "]:"@);
        line.subrange(bs + 1, be) + ": "@ + trim_spec(line.subrange(be + 2, line.len() as int))
    } else {
        line
    }
}

/// Parsing state while walking compiler output line by line: finished
/// diagnostics, the diagnostic whose header was seen last, and help text
/// collected for it.
pub ghost struct ParseState {
    /// Diagnostics already emitted.
    pub errors: Seq<ErrorModel>,
    /// The diagnostic currently being assembled.
    pub current: Option<ErrorModel>,
    /// Help and note text collected since the last emission.
    pub help: Seq<char>,
}

/// Emit the diagnostic being assembled, enriched with the collected help
/// text. Without one in progress nothing changes.
pub open spec fn flush_spec(st: ParseState) -> ParseState {
    match st.current {
        Some(e) => ParseState {
            errors: st.errors.push(enrich_spec(e, st.help)),
            current: None,
            help: Seq::empty(),
        },
        None => st,
    }
}

/// How one line of compiler output changes the parsing state: a location
/// arrow fills in the position of the diagnostic in progress, an error or
/// warning header emits the previous diagnostic and starts a new one, and
/// help or note lines accumulate.
pub open spec fn step_spec(st: ParseState, line: Seq<char>) -> ParseState {
    if contains_at(trim_spec(line), "-->"@, 0) {
        let pieces = split_spec(line, "-->"@);
        if pieces.len() >= 2 {
            let parts = split_spec(trim_spec(pieces[1]), ":"@);
            if parts.len() >= 3 {
                match st.current {
                    Some(e) => ParseState {
                        errors: st.errors,
                        current: Some(
                            ErrorModel {
                                message: e.message,
                                file: Some(parts[0]),
                                line: match parse_usize_spec(parts[1]) {
                                    Some(l) => Some(l as int),
                                    None => None,
                                },
                                column: match parse_usize_spec(parts[2]) {
                                    Some(c) => Some(c as int),
                                    None => None,
                                },
                                severity: e.severity,
                            },
                        ),
                        help: st.help,
                    },
                    None => st,
                }
            } else {
                st
            }
        } else {
            st
        }
    } else if spec_contains(line, "error["@) || spec_contains(line, "error:"@) {
        let f = flush_spec(st);
        ParseState {
            errors: f.errors,
            current: Some(
                ErrorModel {
                    message: friendly_spec(error_message_of(line)),
                    file: None,
                    line: None,
                    column: None,
                    severity: Severity::Error,
                },
            ),
            help: f.help,
        }
    } else if spec_contains(line, "warning:"@) {
        let f = flush_spec(st);
        ParseState {
            errors: f.errors,
            current: Some(
                ErrorModel {
                    message: friendly_spec(line),
                    file: None,
                    line: None,
                    column: None,
                    severity: Severity::Warning,
                },
            ),
            help: f.help,
        }
    } else if contains_at(trim_spec(line), "help:"@, 0) || contains_at(
        trim_spec(line),
        "note:"@,
        0,
    ) {
        ParseState {
            errors: st.errors,
            current: st.current,
            help: if st.help.len() == 0 {
                trim_spec(line)
            } else {
                st.help + "\n"@ + trim_spec(line)
            },
        }
    } else {
        st
    }
}

/// The parsing state after walking the given lines in order.
pub open spec fn fold_lines(lines: Seq<Seq<char>>) -> ParseState
    decreases lines.len(),
{
    if lines.len() == 0 {
        ParseState { errors: Seq::empty(), current: None, help: Seq::empty() }
    } else {
        step_spec(fold_lines(lines.drop_last()), lines.last())
    }
}

/// The diagnostic emitted when no structured diagnostic was recognised:
/// the full compiler output wrapped in a generic explanation.
pub open spec fn fallback_error(s: Seq<char>) -> ErrorModel {
    ErrorModel {
        message: "The Rust compiler encountered an issue:\n\n"@ + s
            + "\n\n\u{f0}\u{178}\u{2019}\u{a1} This usually means there's a syntax error or type mismatch in the generated code."@,
        file: None,
        line: None,
        column: None,
        severity: Severity::Error,
    }
}

/// What parsing compiler output yields: the diagnostics its lines
/// describe, the last one flushed at the end, or the fallback diagnostic
/// when none was recognised.
pub open spec fn parse_spec(s: Seq<char>) -> Seq<ErrorModel> {
    let st = fold_lines(lines_spec(s));
    let errs = match st.current {
        Some(e) => st.errors.push(enrich_spec(e, st.help)),
        None => st.errors,
    };
    if errs.len() == 0 {
        seq![fallback_error(s)]
    } else {
        errs
    }
}

/// The view of a diagnostic in progress.
pub open spec fn opt_view(o: Option<CompilationError>) -> Option<ErrorModel> {
    match o {
        Some(e) => Some(e@),
        None => None,
    }
}

/// Parses and rewrites toolchain output. The subprocess that produces the
/// output is driven by the embedding application; this type holds the pure
/// part of the work.
pub struct SubprocessCompiler {}

impl SubprocessCompiler {
    /// Rewrite a compiler message, appending an explanatory hint for the
    /// common complaints.
    pub fn make_user_friendly(message: &str) -> (r: String)
        ensures
            r@ == friendly_spec(message@),
    {
        if contains_sub(message, "mismatched types") {
            String::from_str(message).concat(
                "\n\n\u{f0}\u{178}\u{2019}\u{a1} The code is trying to use a value of one type where a different type is expected.",
            )
        } else if contains_sub(message, "cannot find") {
            String::from_str(message).concat(
                "\n\n\u{f0}\u{178}\u{2019}\u{a1} The code is referencing something that doesn't exist or wasn't imported.",
            )
        } else if contains_sub(message, "expected") && contains_sub(message, "found") {
            String::from_str(message).concat(
                "\n\n\u{f0}\u{178}\u{2019}\u{a1} The types don't match - check that variables and function returns have the correct types.",
            )
        } else if contains_sub(message, "unresolved import") {
            String::from_str(message).concat(
                "\n\n\u{f0}\u{178}\u{2019}\u{a1} The code is trying to import something that doesn't exist. Check the import path.",
            )
        } else if contains_sub(message, "unused") {
            String::from_str(message).concat(
                "\n\n\u{f0}\u{178}\u{2019}\u{a1} This is defined but never used. Consider removing it or using it somewhere.",
            )
        } else if contains_sub(message, "missing lifetime") {
            String::from_str(message).concat(
                "\n\n\u{f0}\u{178}\u{2019}\u{a1} Rust needs help understanding how long references live. This is an advanced feature.",
            )
        } else if contains_sub(message, "borrowed value") || contains_sub(
            message,
            "does not live long enough",
        ) {
            String::from_str(message).concat(
                "\n\n\u{f0}\u{178}\u{2019}\u{a1} The code is trying to use a reference that no longer exists. Try simplifying the ownership.",
            )
        } else if contains_sub(message, "trait") && contains_sub(message, "not implemented") {
            String::from_str(message).concat(
                "\n\n\u{f0}\u{178}\u{2019}\u{a1} The type needs to implement a trait (interface) to be used in this way.",
            )
        } else {
            String::from_str(message)
        }
    }

    /// Enrich a diagnostic with collected help text and its location.
    pub fn enrich_error(error: CompilationError, help_text: &str) -> (r: CompilationError)
        ensures
            r@ == enrich_spec(error@, help_text@),
    {
        let mut e = error;
        if help_text.unicode_len() > 0 {
            let mut msg = String::new();
            core::mem::swap(&mut msg, &mut e.message);
            e.message = msg.concat("\n\n").concat(help_text);
            proof {
                assert(e.message@ =~= error.message@ + "\n\n"@ + help_text@);
            }
        }
        match (e.line, e.column) {
            (Some(l), Some(c)) => {
                let mut p = String::from_str("At line ");
                append_dec(&mut p, l as u64);
                p.append(", column ");
                append_dec(&mut p, c as u64);
                p.append(":\n");
                let mut msg = String::new();
                core::mem::swap(&mut msg, &mut e.message);
                e.message = p.concat(msg.as_str());
                proof {
                    assert(e@.message =~= enrich_spec(error@, help_text@).message);
                }
            },
            _ => {},
        }
        e
    }

    /// The message drawn from a diagnostic header line.
    fn error_header_message(line: &str) -> (r: String)
        ensures
            r@ == error_message_of(line@),
    {
        proof {
            reveal_strlit("[");
            reveal_strlit("]:");
        }
        let n = line.unicode_len();
        match (find_sub(line, "["), find_sub(line, "]:")) {
            (Some(bs), Some(be)) => {
                proof {
                    lemma_first_match(line@, "["@);
                    lemma_first_match(line@, "]:"@);
                }
                if bs + 1 <= be {
                    let code = line.substring_char(bs + 1, be);
                    let rest = trim_str(line.substring_char(be + 2, n));
                    let r = String::from_str(code).concat(": ").concat(rest.as_str());
                    proof {
                        assert(r@ =~= error_message_of(line@));
                    }
                    r
                } else {
                    String::from_str(line)
                }
            },
            _ => String::from_str(line),
        }
    }

    /// Parse raw compiler output into structured, user-friendly
    /// diagnostics. When nothing in the output is recognised, the whole
    /// output is wrapped in a single fallback diagnostic.
    pub fn parse_errors(stderr: &str) -> (r: Vec<CompilationError>)
        ensures
            r@.map_values(|e: CompilationError| e@) == parse_spec(stderr@),
    {
        proof {
            reveal_strlit("-->");
            reveal_strlit(":");
        }
        let lines = lines_of(stderr);
        let ghost lseq = lines_spec(stderr@);
        let mut errors: Vec<CompilationError> = Vec::new();
        let mut current: Option<CompilationError> = None;
        let mut help_text: String = String::new();
        let n = lines.len();
        let mut i: usize = 0;
        proof {
            assert(lseq.subrange(0, 0) =~= Seq::<Seq<char>>::empty());
            assert(errors@.map_values(|e: CompilationError| e@) =~= Seq::<ErrorModel>::empty());
        }
        while i < n
            invariant
                i <= n,
                n == lines@.len(),
                lines@.map_values(|x: String| x@) == lseq,
                lseq == lines_spec(stderr@),
                errors@.map_values(|e: CompilationError| e@) == fold_lines(
                    lseq.subrange(0, i as int),
                ).errors,
                opt_view(current) == fold_lines(lseq.subrange(0, i as int)).current,
                help_text@ == fold_lines(lseq.subrange(0, i as int)).help,
            decreases n - i,
        {
            proof {
                reveal_strlit("-->");
                reveal_strlit(":");
            }
            let ghost st0 = fold_lines(lseq.subrange(0, i as int));
            let ghost st1 = step_spec(st0, lseq[i as int]);
            proof {
                assert(lseq.subrange(0, i + 1).drop_last() =~= lseq.subrange(0, i as int));
                assert(lseq.subrange(0, i + 1).last() == lseq[i as int]);
                assert(fold_lines(lseq.subrange(0, i + 1)) == st1);
                assert(lines@.map_values(|x: String| x@)[i as int] == lines@[i as int]@);
            }
            let line = &lines[i];
            let trimmed = trim_str(line.as_str());
            if starts_with_sub(trimmed.as_str(), "-->") {
                let pieces = split_str(line.as_str(), "-->");
                let ghost spieces = split_spec(lseq[i as int], "-->"@);
                if pieces.len() >= 2 {
                    proof {
                        assert(pieces@.map_values(|x: String| x@)[1] == pieces@[1]@);
                    }
                    let loc_trim = trim_str(pieces[1].as_str());
                    let parts = split_str(loc_trim.as_str(), ":");
                    let ghost sparts = split_spec(trim_spec(spieces[1]), ":"@);
                    if parts.len() >= 3 {
                        proof {
                            assert(parts@.map_values(|x: String| x@)[0] == parts@[0]@);
                            assert(parts@.map_values(|x: String| x@)[1] == parts@[1]@);
                            assert(parts@.map_values(|x: String| x@)[2] == parts@[2]@);
                        }
                        match &mut current {
                            Some(err) => {
                                err.file = Some(parts[0].clone());
                                err.line = parse_usize(parts[1].as_str());
                                err.column = parse_usize(parts[2].as_str());
                            },
                            None => {},
                        }
                    }
                }
            } else if contains_sub(line.as_str(), "error[") || contains_sub(
                line.as_str(),
                "error:",
            ) {
                let mut prev: Option<CompilationError> = None;
                core::mem::swap(&mut prev, &mut current);
                match prev {
                    Some(err) => {
                        errors.push(Self::enrich_error(err, help_text.as_str()));
                        help_text = String::new();
                        proof {
                            assert(errors@.map_values(|e: CompilationError| e@)
                                =~= flush_spec(st0).errors);
                        }
                    },
                    None => {},
                }
                let header = Self::error_header_message(line.as_str());
                current = Some(
                    CompilationError {
                        message: Self::make_user_friendly(header.as_str()),
                        file: None,
                        line: None,
                        column: None,
                        severity: Severity::Error,
                    },
                );
            } else if contains_sub(line.as_str(), "warning:") {
                let mut prev: Option<CompilationError> = None;
                core::mem::swap(&mut prev, &mut current);
                match prev {
                    Some(err) => {
                        errors.push(Self::enrich_error(err, help_text.as_str()));
                        help_text = String::new();
                        proof {
                            assert(errors@.map_values(|e: CompilationError| e@)
                                =~= flush_spec(st0).errors);
                        }
                    },
                    None => {},
                }
                current = Some(
                    CompilationError {
                        message: Self::make_user_friendly(line.as_str()),
                        file: None,
                        line: None,
                        column: None,
                        severity: Severity::Warning,
                    },
                );
            } else if starts_with_sub(trimmed.as_str(), "help:") || starts_with_sub(
                trimmed.as_str(),
                "note:",
            ) {
                if help_text.as_str().unicode_len() > 0 {
                    help_text.append("\n");
                }
                help_text.append(trimmed.as_str());
                proof {
                    assert(help_text@ =~= st1.help);
                }
            }
            proof {
                assert(errors@.map_values(|e: CompilationError| e@) =~= st1.errors);
            }
            i = i + 1;
        }
        proof {
            assert(lseq.subrange(0, n as int) =~= lseq);
        }
        match current {
            Some(err) => {
                errors.push(Self::enrich_error(err, help_text.as_str()));
            },
            None => {},
        }
        if errors.len() == 0 {
            let message = String::from_str("The Rust compiler encountered an issue:\n\n").concat(
                stderr,
            ).concat(
                "\n\n\u{f0}\u{178}\u{2019}\u{a1} This usually means there's a syntax error or type mismatch in the generated code.",
            );
            let fb = CompilationError {
                message,
                file: None,
                line: None,
                column: None,
                severity: Severity::Error,
            };
            proof {
                assert(fb@.message =~= fallback_error(stderr@).message);
            }
            errors.push(fb);
        }
        proof {
            assert(errors@.map_values(|e: CompilationError| e@) =~= parse_spec(stderr@));
        }
        errors
    }
}

/// A compiler stand-in that rejects every request. Useful before a real
/// toolchain runner is wired in.
pub struct PlaceholderCompiler {}

impl PlaceholderCompiler {
    /// Always fails: no toolchain is attached.
    pub fn reject(&self) -> (r: MorpheusError)
        ensures
            r is CompilationError,
            r->CompilationError_0@ == "Compiler not yet implemented - placeholder only"@,
    {
        MorpheusError::CompilationError(
            String::from_str("Compiler not yet implemented - placeholder only"),
        )
    }
}

impl Compiler for PlaceholderCompiler {
    fn compile(&self, source: &str) -> (r: MorpheusResult<Vec<u8>>)
        ensures
            match r {
                Err(MorpheusError::CompilationError(m)) => m@
                    == "Compiler not yet implemented - placeholder only"@,
                _ => false,
            },
    {
        Err(self.reject())
    }

    fn check(&self, source: &str) -> (r: MorpheusResult<()>)
        ensures
            match r {
                Err(MorpheusError::CompilationError(m)) => m@
                    == "Compiler not yet implemented - placeholder only"@,
                _ => false,
            },
    {
        Err(self.reject())
    }
}

} // verus!
