//! The argument resolver: from the raw argument list to a configuration.
//!
//! Tokenizing the flag grammar is `argparse_rs`'s affair and stays behind
//! trusted wrappers. The parser and its result are modelled by named
//! functions: `parser_opts` for what a parser was configured with,
//! `parsed_values` for what a successful parse holds, and `parse_outcome`
//! for the parse's verdict itself, which is a function of the parser
//! value and the argument list alone. The resolution rules — the input
//! file is required, the filter defaults to `"grayscale"` and must name a
//! known filter — are verified exactly in `resolve_config`, and
//! `parse_arguments` composes the two into a contract that pins its
//! result as a function of the parse's outcome.

use vstd::prelude::*;
use vstd::string::StrSliceExecFns;

use crate::filter::{parse_filter, ImageFilter};

verus! {

#[verifier::external_type_specification]
#[verifier::external_body]
pub struct ExArgParser(argparse_rs::ArgParser);

#[verifier::external_type_specification]
#[verifier::external_body]
pub struct ExArgParseResults(argparse_rs::ArgParseResults);

/// What a parser has been configured with: for each option name, the
/// default value, if any, whether the option is required, and its short
/// flag character.
pub uninterp spec fn parser_opts(p: argparse_rs::ArgParser) -> Map<Seq<char>, (Option<Seq<char>>, bool, char)>;

/// What a successful parse holds: for each configured option name, the
/// value the option ended with, if any.
pub uninterp spec fn parsed_values(r: argparse_rs::ArgParseResults) -> Map<Seq<char>, Option<Seq<char>>>;

/// What `ArgParser::parse` yields on a parser value and an argument
/// list: nothing when the flag grammar rejects the list, else the value
/// each configured option ended with. The parse draws on nothing but its
/// two inputs — no chance, clock or environment — so its verdict is a
/// function of them and can be named. Which diagnostic a rejection
/// carries is left open: that varies with hash-map walk order.
pub uninterp spec fn parse_outcome(p: argparse_rs::ArgParser, args: Seq<Seq<char>>) -> Option<Map<Seq<char>, Option<Seq<char>>>>;

/// The view of an optional borrowed string.
pub open spec fn opt_str_view(o: Option<&str>) -> Option<Seq<char>> {
    match o {
        Some(s) => Some(s@),
        None => None,
    }
}

/// The view of an optional owned string.
pub open spec fn opt_string_view(o: Option<String>) -> Option<Seq<char>> {
    match o {
        Some(s) => Some(s@),
        None => None,
    }
}

/// The views of an argument list.
pub open spec fn arg_views(args: Seq<String>) -> Seq<Seq<char>> {
    args.map_values(|s: String| s@)
}

/// A string that is one single character of three or more bytes (a code
/// point at or above U+0800). The parser library's flag splitting indexes
/// the second character of any argument of three or more bytes, so such
/// an argument makes it panic.
pub open spec fn lone_wide_char(s: Seq<char>) -> bool {
    s.len() == 1 && s[0] as u32 >= 0x800
}

/// An argument list the parser library can tokenize without panicking:
/// no argument is a single character of three or more bytes.
pub open spec fn args_parseable(args: Seq<Seq<char>>) -> bool {
    forall|i: int| 0 <= i < args.len() ==> !lone_wide_char(#[trigger] args[i])
}

/// The value a parse result holds under `name`: the entry's value when
/// the name is present and carries one, nothing otherwise.
pub open spec fn extracted_value(vals: Map<Seq<char>, Option<Seq<char>>>, name: Seq<char>) -> Option<Seq<char>> {
    if vals.dom().contains(name) && vals[name] is Some {
        vals[name]
    } else {
        None
    }
}

/// Relies on argparse_rs::ArgParser::add_opt: it records the option
/// under `name`, with the given default, required flag and short flag
/// character, replacing any earlier option of that name. The option is
/// added as one that takes a value (`ArgType::Option`); `help` only
/// shapes the help text, of which nothing is stated.
#[verifier::external_body]
fn add_string_opt(
    p: &mut argparse_rs::ArgParser,
    name: &str,
    default: Option<&str>,
    flag: char,
    required: bool,
    help: &str,
)
    ensures
        parser_opts(*final(p)) == parser_opts(*old(p)).insert(
            name@,
            (opt_str_view(default), required, flag),
        ),
{
    p.add_opt(name, default, flag, required, help, argparse_rs::ArgType::Option);
}

/// Relies on argparse_rs::ArgParser::parse, whose verdict is the named
/// `parse_outcome`: the call succeeds exactly when the outcome exists,
/// and then holds the outcome's values. Of a successful parse the
/// library also shows: the result holds exactly the configured option
/// names, and an option configured with a default, or required, ends
/// with a value (a required option without one fails the parse instead).
/// The parse's flag splitting indexes the second character of any
/// argument of three or more bytes, and so panics on an argument that is
/// a single such character: the `requires` leaves those lists out.
#[verifier::external_body]
fn parse_args(
    p: &argparse_rs::ArgParser,
    args: &Vec<String>,
) -> (r: Result<argparse_rs::ArgParseResults, String>)
    requires
        args_parseable(arg_views(args@)),
    ensures
        r is Ok <==> parse_outcome(*p, arg_views(args@)) is Some,
        r matches Ok(pr) ==> parsed_values(pr) == parse_outcome(*p, arg_views(args@))->Some_0,
        r matches Ok(pr) ==> parsed_values(pr).dom() == parser_opts(*p).dom(),
        r matches Ok(pr) ==> forall|k: Seq<char>| #[trigger] parser_opts(*p).dom().contains(k) ==> {
            &&& (parser_opts(*p)[k].0 is Some ==> parsed_values(pr)[k] is Some)
            &&& (parser_opts(*p)[k].1 ==> parsed_values(pr)[k] is Some)
        },
{
    p.parse(args.iter())
}

/// Relies on argparse_rs::ArgParseResults::get: looking an option up by
/// name yields exactly the value the result holds under that name, if
/// any (a string value always re-parses as itself).
#[verifier::external_body]
fn get_string(pr: &argparse_rs::ArgParseResults, name: &str) -> (r: Option<String>)
    ensures
        opt_string_view(r) == extracted_value(parsed_values(*pr), name@),
{
    pr.get::<String>(name)
}

/// The configuration a run works from: the filter to apply and the
/// user-supplied input path.
#[derive(Debug)]
pub struct Args {
    pub filter: ImageFilter,
    pub filepath: String,
}

/// Why the arguments could not be resolved into a configuration.
#[derive(Debug, PartialEq, Eq)]
pub enum ArgError {
    /// The argument list could not be parsed — the flag grammar rejected
    /// it (a required option left unset included), or it holds an
    /// argument the tokenizer cannot take; carries the diagnostic line.
    ParseFailed(String),
    /// The filter option named no known filter.
    BadFilter,
    /// No input file value was present.
    MissingFile,
}

impl ArgError {
    /// The diagnostic line for this failure.
    pub fn message(&self) -> (r: String)
        ensures
            *self matches ArgError::ParseFailed(m) ==> r@ == m@,
            *self == ArgError::BadFilter ==> r@ == "Bad filter specified"@,
            *self == ArgError::MissingFile ==> r@ == "No input file specified"@,
    {
        match self {
            ArgError::ParseFailed(m) => m.clone(),
            ArgError::BadFilter => "Bad filter specified".to_owned(),
            ArgError::MissingFile => "No input file specified".to_owned(),
        }
    }
}

/// The filter name a run works from: the given one, or `"grayscale"`
/// when the filter option is absent.
pub open spec fn effective_filter_name(filter: Option<Seq<char>>) -> Seq<char> {
    match filter {
        Some(s) => s,
        None => "grayscale"@,
    }
}

/// Resolves the two extracted option values into a configuration: the
/// input file value is required, and the filter name — the given value,
/// or its default — must name a known filter.
pub fn resolve_config(filter: Option<String>, filepath: Option<String>) -> (r: Result<
    Args,
    ArgError,
>)
    ensures
        r matches Ok(a) ==> {
            &&& filepath matches Some(p) && a.filepath@ == p@
            &&& parse_filter(effective_filter_name(opt_string_view(filter))) == Some(a.filter)
        },
        r is Ok <==> filepath is Some && parse_filter(
            effective_filter_name(opt_string_view(filter)),
        ) is Some,
        r == Err::<Args, ArgError>(ArgError::MissingFile) <==> filepath is None,
        r == Err::<Args, ArgError>(ArgError::BadFilter) <==> filepath is Some && parse_filter(
            effective_filter_name(opt_string_view(filter)),
        ) is None,
{
    let file = match filepath {
        Some(p) => p,
        None => {
            return Err(ArgError::MissingFile);
        },
    };
    let name: String = match filter {
        Some(s) => s,
        None => "grayscale".to_owned(),
    };
    match ImageFilter::from_str(name.as_str()) {
        Ok(f) => Ok(Args { filter: f, filepath: file }),
        Err(_) => Err(ArgError::BadFilter),
    }
}

/// Configures the parser with the pipeline's two options: `--filter`,
/// short flag `'f'`, which takes a value and defaults to `"grayscale"`,
/// and `--file`, short flag `'i'`, which takes a value and is required.
pub fn configure_parser(parser: &mut argparse_rs::ArgParser)
    ensures
        parser_opts(*final(parser)) == parser_opts(*old(parser)).insert(
            "filter"@,
            (Some("grayscale"@), true, 'f'),
        ).insert("file"@, (None::<Seq<char>>, true, 'i')),
{
    add_string_opt(parser, "filter", Some("grayscale"), 'f', true, "Filter to apply to the image");
    add_string_opt(parser, "file", None, 'i', true, "Input source");
}

/// Parses the raw argument list, with a configured parser, into a
/// configuration. The result is pinned as a function of the parse's
/// outcome on the list: a parse failure — an argument the tokenizer
/// cannot take, or the grammar's rejection — is reported as such and
/// exactly then; with an outcome in hand, the configuration carries the
/// outcome's file value and the filter its (defaulted) filter value
/// names, and each rejection comes exactly when its reason holds. With a
/// parser whose `file` option is required, a missing file value always
/// surfaces as the grammar's failure, never as a missing-value lookup.
pub fn parse_arguments(args: &Vec<String>, parser: &argparse_rs::ArgParser) -> (r: Result<
    Args,
    ArgError,
>)
    ensures
        (r matches Err(ArgError::ParseFailed(_))) <==> (!args_parseable(arg_views(args@))
            || parse_outcome(*parser, arg_views(args@)) is None),
        args_parseable(arg_views(args@)) ==> (parse_outcome(*parser, arg_views(args@)) matches Some(vals) ==> {
            let fo = extracted_value(vals, "filter"@);
            let io = extracted_value(vals, "file"@);
            &&& (r is Ok <==> io is Some && parse_filter(effective_filter_name(fo)) is Some)
            &&& (r matches Ok(a) ==> io matches Some(p) && a.filepath@ == p
                && parse_filter(effective_filter_name(fo)) == Some(a.filter))
            &&& (r == Err::<Args, ArgError>(ArgError::MissingFile) <==> io is None)
            &&& (r == Err::<Args, ArgError>(ArgError::BadFilter) <==> io is Some
                && parse_filter(effective_filter_name(fo)) is None)
        }),
        parser_opts(*parser).dom().contains("file"@) && parser_opts(*parser)["file"@].1 ==> !(
        r matches Err(ArgError::MissingFile)),
{
    let mut idx: usize = 0;
    while idx < args.len()
        invariant
            idx <= args.len(),
            forall|j: int| 0 <= j < idx ==> !lone_wide_char(#[trigger] arg_views(args@)[j]),
        decreases args.len() - idx,
    {
        let s: &String = &args[idx];
        if s.as_str().unicode_len() == 1 {
            let c = s.as_str().get_char(0);
            if c as u32 >= 0x800 {
                proof {
                    assert(lone_wide_char(arg_views(args@)[idx as int]));
                }
                return Err(ArgError::ParseFailed(
                    "Cannot parse an argument that is a single wide character".to_owned(),
                ));
            }
        }
        idx += 1;
    }
    assert(args_parseable(arg_views(args@)));
    let parsed = match parse_args(parser, args) {
        Ok(pr) => pr,
        Err(m) => {
            return Err(ArgError::ParseFailed(m));
        },
    };
    proof {
        if parser_opts(*parser).dom().contains("file"@) && parser_opts(*parser)["file"@].1 {
            assert(parsed_values(parsed)["file"@] is Some);
        }
    }
    let filter_opt = get_string(&parsed, "filter");
    let file_opt = get_string(&parsed, "file");
    resolve_config(filter_opt, file_opt)
}

} // verus!
