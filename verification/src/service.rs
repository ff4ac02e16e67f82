//! Decisions behind the `#[service]` attribute: how method names become
//! variant names, and which response variants a method's streaming mode asks for.
use vstd::prelude::*;
use vstd::string::*;

verus! {

/// What `char::to_uppercase` yields for `c`, as a sequence of characters.
pub uninterp spec fn uppercase_of(c: char) -> Seq<char>;

/// The upper-case form of an ASCII character: `a`..=`z` move to `A`..=`Z`,
/// every other ASCII character maps to itself.
pub open spec fn ascii_uppercase(c: char) -> Seq<char> {
    if 'a' <= c <= 'z' {
        seq![((c as u32) - 32) as char]
    } else {
        seq![c]
    }
}

/// The upper-case form of any character: for ASCII as `ascii_uppercase`
/// says, otherwise as the Unicode tables (`uppercase_of`) say.
pub open spec fn char_upper(c: char) -> Seq<char> {
    if (c as u32) < 128 {
        ascii_uppercase(c)
    } else {
        uppercase_of(c)
    }
}

/// `char::to_uppercase`, collected into a `String`.
///
/// Claims that the result is `uppercase_of(c)`, a function of `c` alone (the
/// Unicode case tables), and, as std documents for ASCII, that an ASCII letter
/// `a`..=`z` becomes its capital and any other ASCII character stays as it is.
#[verifier::external_body]
fn char_to_uppercase(c: char) -> (r: String)
    ensures
        r@ == uppercase_of(c),
        (c as u32) < 128 ==> r@ == ascii_uppercase(c),
{
    c.to_uppercase().collect()
}

/// Pascal case of `s`, read from the front: every `_` is dropped, and the first
/// character of each `_`-separated word (`at_word_start`) is upper-cased.
pub open spec fn pascal_from(s: Seq<char>, at_word_start: bool) -> Seq<char>
    decreases s.len(),
{
    if s.len() == 0 {
        Seq::empty()
    } else if s[0] == '_' {
        pascal_from(s.drop_first(), true)
    } else if at_word_start {
        char_upper(s[0]) + pascal_from(s.drop_first(), false)
    } else {
        seq![s[0]] + pascal_from(s.drop_first(), false)
    }
}

/// The Pascal-case form of a `snake_case` name: split on `_`, capitalise the
/// first character of each word, and join the words with nothing between them.
pub open spec fn pascal_case(s: Seq<char>) -> Seq<char> {
    pascal_from(s, true)
}

/// Converts a `snake_case` method name to the `PascalCase` name of its variant.
pub fn to_pascal_case(s: &str) -> (r: String)
    ensures
        r@ == pascal_case(s@),
{
    let n = s.unicode_len();
    let mut out = String::new();
    let mut at_word_start = true;
    let mut i: usize = 0;
    proof {
        assert(s@.skip(0) =~= s@);
        assert(out@ + pascal_from(s@, true) =~= pascal_from(s@, true));
    }
    while i < n
        invariant
            n == s@.len(),
            i <= n,
            out@ + pascal_from(s@.skip(i as int), at_word_start) == pascal_case(s@),
        decreases n - i,
    {
        let c = s.get_char(i);
        proof {
            let rest = s@.skip(i as int);
            assert(rest[0] == c);
            assert(rest.drop_first() =~= s@.skip(i + 1));
        }
        if c == '_' {
            at_word_start = true;
        } else if at_word_start {
            let upper = char_to_uppercase(c);
            proof {
                assert((out@ + upper@) + pascal_from(s@.skip(i + 1), false) =~= out@ + (upper@
                    + pascal_from(s@.skip(i + 1), false)));
            }
            out.append(upper.as_str());
            at_word_start = false;
        } else {
            let piece = s.substring_char(i, i + 1);
            proof {
                assert(piece@ =~= seq![c]);
                assert((out@ + piece@) + pascal_from(s@.skip(i + 1), false) =~= out@ + (seq![c]
                    + pascal_from(s@.skip(i + 1), false)));
            }
            out.append(piece);
        }
        i = i + 1;
    }
    proof {
        assert(s@.skip(n as int).len() == 0);
        assert(out@ + Seq::<char>::empty() =~= out@);
    }
    out
}

/// Streaming mode for a method.
#[derive(Debug, Clone, Copy, PartialEq, Eq, Structural)]
pub enum StreamingMode {
    /// Normal unary RPC.
    Unary,
    /// Server sends multiple responses.
    ServerStream,
    /// Client sends multiple requests.
    ClientStream,
    /// Both directions stream.
    Bidirectional,
}

impl Default for StreamingMode {
    fn default() -> (m: Self)
        ensures
            m == StreamingMode::Unary,
    {
        StreamingMode::Unary
    }
}

/// Arguments passed to the `#[service]` attribute.
#[derive(Debug)]
pub struct ServiceArgs {
    /// Generate Clone impl for client.
    pub client_clone: bool,
}

impl Default for ServiceArgs {
    fn default() -> (a: Self)
        ensures
            !a.client_clone,
    {
        ServiceArgs { client_clone: false }
    }
}

/// The streaming mode that a method's attributes name: the first attribute,
/// in order, among `server_stream`, `client_stream` and `bidirectional`;
/// `Unary` where none of them occurs.
pub open spec fn mode_of_attrs(names: Seq<Seq<char>>) -> StreamingMode
    decreases names.len(),
{
    if names.len() == 0 {
        StreamingMode::Unary
    } else if names[0] == "server_stream"@ {
        StreamingMode::ServerStream
    } else if names[0] == "client_stream"@ {
        StreamingMode::ClientStream
    } else if names[0] == "bidirectional"@ {
        StreamingMode::Bidirectional
    } else {
        mode_of_attrs(names.drop_first())
    }
}

/// The view of each name in a slice of strings.
pub open spec fn names_view(names: Seq<String>) -> Seq<Seq<char>> {
    names.map_values(|n: String| n@)
}

/// Whether two strings hold the same characters.
fn same_text(a: &str, b: &str) -> (r: bool)
    ensures
        r == (a@ == b@),
{
    let n = a.unicode_len();
    if n != b.unicode_len() {
        return false;
    }
    let mut i: usize = 0;
    while i < n
        invariant
            n == a@.len(),
            n == b@.len(),
            i <= n,
            a@.take(i as int) == b@.take(i as int),
        decreases n - i,
    {
        if a.get_char(i) != b.get_char(i) {
            proof {
                assert(a@[i as int] != b@[i as int]);
            }
            return false;
        }
        proof {
            assert(a@.take(i + 1) =~= a@.take(i as int).push(a@[i as int]));
            assert(b@.take(i + 1) =~= b@.take(i as int).push(b@[i as int]));
        }
        i = i + 1;
    }
    proof {
        assert(a@.take(n as int) =~= a@);
        assert(b@.take(n as int) =~= b@);
    }
    true
}

/// The streaming mode named by a method's attributes, given the name of each
/// attribute whose path is a single identifier (any other attribute may be
/// given as an empty name).
pub fn streaming_mode_from_attrs(names: &[String]) -> (m: StreamingMode)
    ensures
        m == mode_of_attrs(names_view(names@)),
{
    let server = "server_stream";
    let client = "client_stream";
    let both = "bidirectional";
    let mut i: usize = 0;
    proof {
        assert(names_view(names@).skip(0) =~= names_view(names@));
    }
    while i < names.len()
        invariant
            i <= names@.len(),
            server@ == "server_stream"@,
            client@ == "client_stream"@,
            both@ == "bidirectional"@,
            mode_of_attrs(names_view(names@).skip(i as int)) == mode_of_attrs(
                names_view(names@),
            ),
        decreases names@.len() - i,
    {
        let name = names[i].as_str();
        proof {
            let rest = names_view(names@).skip(i as int);
            assert(rest[0] == names@[i as int]@);
            assert(rest.drop_first() =~= names_view(names@).skip(i + 1));
        }
        if same_text(name, server) {
            return StreamingMode::ServerStream;
        }
        if same_text(name, client) {
            return StreamingMode::ClientStream;
        }
        if same_text(name, both) {
            return StreamingMode::Bidirectional;
        }
        i = i + 1;
    }
    StreamingMode::Unary
}

/// Whether a method's return type, a path whose last segment is named
/// `last_segment` and carries `type_args` type arguments in angle brackets,
/// is a `Result` the service accepts: it is named `Result` and gives both an
/// ok type and an error type (the first two type arguments).
pub fn returns_result(last_segment: &str, type_args: usize) -> (r: bool)
    ensures
        r == (last_segment@ == "Result"@ && type_args >= 2),
{
    type_args >= 2 && same_text(last_segment, "Result")
}

/// One response variant that a method contributes to the response enum.
#[derive(Debug, Clone, Copy, PartialEq, Eq, Structural)]
pub enum ResponseVariant {
    /// The variant named after the method, carrying its `Result`.
    Single,
    /// `<Method>Start`, opening a stream of responses.
    Start,
    /// `<Method>Item`, one streamed `Result`.
    Item,
    /// `<Method>End`, closing the stream.
    End,
}

/// The response variants of a method in `mode`: one variant for a method that
/// answers once, and start, item and end variants for one whose server side
/// streams.
pub open spec fn variants_for(mode: StreamingMode) -> Seq<ResponseVariant> {
    match mode {
        StreamingMode::Unary | StreamingMode::ClientStream => seq![ResponseVariant::Single],
        StreamingMode::ServerStream | StreamingMode::Bidirectional => seq![
            ResponseVariant::Start,
            ResponseVariant::Item,
            ResponseVariant::End,
        ],
    }
}

/// The response variants that a method in `mode` contributes, in order.
pub fn response_variants(mode: StreamingMode) -> (v: Vec<ResponseVariant>)
    ensures
        v@ == variants_for(mode),
{
    match mode {
        StreamingMode::Unary | StreamingMode::ClientStream => vec![ResponseVariant::Single],
        StreamingMode::ServerStream | StreamingMode::Bidirectional => vec![
            ResponseVariant::Start,
            ResponseVariant::Item,
            ResponseVariant::End,
        ],
    }
}

/// Why a service trait or one of its methods cannot be turned into a service.
#[derive(Debug, Clone, Copy, PartialEq, Eq, Structural)]
pub enum ParseError {
    /// The method is not `async`.
    NotAsync,
    /// The method takes no `&self` or `&mut self`.
    MissingReceiver,
    /// An argument is not bound to a plain identifier.
    ArgumentNotIdent,
    /// The method does not return `Result<T, E>`.
    NotResult,
    /// The trait has no method.
    NoMethods,
}

/// The message that the macro reports for each parse error.
pub open spec fn parse_error_text(e: ParseError) -> Seq<char> {
    match e {
        ParseError::NotAsync => "RPC methods must be async"@,
        ParseError::MissingReceiver => "RPC methods must take &self or &mut self"@,
        ParseError::ArgumentNotIdent => "expected identifier pattern for argument"@,
        ParseError::NotResult => "RPC methods must return Result<T, E>"@,
        ParseError::NoMethods => "service trait must have at least one method"@,
    }
}

impl ParseError {
    /// The message reported for this error.
    pub fn message(&self) -> (r: &'static str)
        ensures
            r@ == parse_error_text(*self),
    {
        match self {
            ParseError::NotAsync => "RPC methods must be async",
            ParseError::MissingReceiver => "RPC methods must take &self or &mut self",
            ParseError::ArgumentNotIdent => "expected identifier pattern for argument",
            ParseError::NotResult => "RPC methods must return Result<T, E>",
            ParseError::NoMethods => "service trait must have at least one method",
        }
    }
}

/// What the checks on a method's shape decide, in the order they run: it must
/// be `async`, then take `&self` or `&mut self` (`receiver` is `Some(is_mut)`),
/// then bind each argument to an identifier, then return a `Result`. On success
/// the result tells whether the method takes `&mut self`.
pub open spec fn method_check(
    is_async: bool,
    receiver: Option<bool>,
    args_are_idents: bool,
    returns_result: bool,
) -> Result<bool, ParseError> {
    if !is_async {
        Err(ParseError::NotAsync)
    } else if receiver is None {
        Err(ParseError::MissingReceiver)
    } else if !args_are_idents {
        Err(ParseError::ArgumentNotIdent)
    } else if !returns_result {
        Err(ParseError::NotResult)
    } else {
        Ok(receiver->0)
    }
}

/// Checks a method's shape; see `method_check`.
pub fn check_method(
    is_async: bool,
    receiver: Option<bool>,
    args_are_idents: bool,
    returns_result: bool,
) -> (r: Result<bool, ParseError>)
    ensures
        r == method_check(is_async, receiver, args_are_idents, returns_result),
{
    if !is_async {
        return Err(ParseError::NotAsync);
    }
    let is_mut = match receiver {
        Some(m) => m,
        None => return Err(ParseError::MissingReceiver),
    };
    if !args_are_idents {
        return Err(ParseError::ArgumentNotIdent);
    }
    if !returns_result {
        return Err(ParseError::NotResult);
    }
    Ok(is_mut)
}

/// Checks that a service trait has at least one method.
pub fn check_service(method_count: usize) -> (r: Result<(), ParseError>)
    ensures
        r is Ok <==> method_count > 0,
        r is Err ==> r == Err::<(), ParseError>(ParseError::NoMethods),
{
    if method_count == 0 {
        Err(ParseError::NoMethods)
    } else {
        Ok(())
    }
}

} // verus!
