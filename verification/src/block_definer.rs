//! Writes the source of one constructor function for each block of a
//! catalog of block definitions.
//!
//! A generated function takes one argument for each parameter of its
//! block, builds the block from them, and returns it as a stack. Names
//! that are reserved words get an underscore appended.

use vstd::prelude::*;
use vstd::string::{StrSliceExecFns, StringExecFns};

verus! {

/// The paths under which the generated code reaches the builders.
#[derive(Debug, Clone, PartialEq, Eq)]
pub struct Paths {
    pub block_field_builder: String,
    pub block_input_builder: String,
    pub block_normal_builder: String,
    pub stack_builder: String,
}

/// What a parameter of a block takes.
#[derive(Debug, Clone, PartialEq, Eq)]
pub enum ParameterType {
    /// A field, with the values and the categories of values that it
    /// accepts, where the catalog lists them.
    Field { possible_values: Option<Vec<String>>, possible_categories: Option<Vec<String>> },
    /// A block.
    Block,
    /// Anything else that goes into an input slot.
    Value,
}

/// A parameter of a block.
#[derive(Debug, Clone, PartialEq, Eq)]
pub struct Parameter {
    pub identifier: String,
    pub parameter_type: ParameterType,
    pub key: String,
    /// Whether the catalog lists strings that the parameter refuses.
    pub deny_strings: bool,
}

/// One piece of the text that the editor shows on a block.
#[derive(Debug, Clone, PartialEq, Eq)]
pub enum ParameterOrText {
    Parameter(Parameter),
    Text(String),
}

/// The shape of a block, as far as the generated code depends on it.
#[derive(Debug, Clone, Copy, PartialEq, Eq, Structural)]
pub enum BlockType {
    /// A drop-down shown inside another block.
    Menu,
    /// Any other shape.
    Other,
}

/// The definition of one block.
#[derive(Debug, Clone, PartialEq, Eq)]
pub struct Block {
    pub identifier: String,
    pub opcode: String,
    pub doc: String,
    pub implementor_note: Option<String>,
    /// The block needs a constructor written by hand.
    pub manual: bool,
    pub block_type: BlockType,
    pub parameters: Vec<ParameterOrText>,
}

/// A catalog of block definitions.
#[derive(Debug, Clone, PartialEq, Eq)]
pub struct Blocks(pub Vec<Block>);

// ---------------------------------------------------------------------
// Reserved words
// ---------------------------------------------------------------------

/// The words that cannot name a function or a parameter.
pub open spec fn keywords() -> Seq<&'static str> {
    seq![
        "if", "as", "break", "const", "continue", "crate", "else", "enum", "extern", "false",
        "fn", "for", "impl", "in", "let", "loop", "match", "mod", "move", "mut", "pub", "ref",
        "return", "self", "Self", "static", "struct", "super", "trait", "true", "type",
        "unsafe", "use", "where", "while", "async", "await", "dyn", "abstract", "become", "box",
        "do", "final", "macro", "override", "priv", "typeof", "unsized", "virtual", "yield",
        "try",
    ]
}

/// `token` is a reserved word.
pub open spec fn is_keyword(token: Seq<char>) -> bool {
    exists|i: int| 0 <= i < keywords().len() && (#[trigger] keywords()[i])@ == token
}

/// The name to use in place of `token`: the token with an underscore
/// appended where it is a reserved word, and the token itself otherwise.
pub open spec fn safe_name(token: Seq<char>) -> Seq<char> {
    if is_keyword(token) {
        token + seq!['_']
    } else {
        token
    }
}

fn keyword_list() -> (list: Vec<&'static str>)
    ensures
        list@ == keywords(),
{
    let list = vec![
        "if", "as", "break", "const", "continue", "crate", "else", "enum", "extern", "false",
        "fn", "for", "impl", "in", "let", "loop", "match", "mod", "move", "mut", "pub", "ref",
        "return", "self", "Self", "static", "struct", "super", "trait", "true", "type",
        "unsafe", "use", "where", "while", "async", "await", "dyn", "abstract", "become", "box",
        "do", "final", "macro", "override", "priv", "typeof", "unsized", "virtual", "yield",
        "try",
    ];
    assert(list@ =~= keywords());
    list
}

/// The replacement for `token` where it is a reserved word: the word with
/// an underscore appended.
pub fn dekeyword(token: &str) -> (r: Option<String>)
    ensures
        match r {
            Some(name) => is_keyword(token@) && name@ == token@ + seq!['_'],
            None => !is_keyword(token@),
        },
{
    let list = keyword_list();
    let wanted = token.to_owned();
    let n: usize = list.len();
    let mut i: usize = 0;
    while i < n
        invariant
            n == list@.len(),
            list@ == keywords(),
            wanted@ == token@,
            i <= n,
            forall|j: int| 0 <= j < i ==> (#[trigger] keywords()[j])@ != token@,
        decreases n - i,
    {
        let word = list[i].to_owned();
        if word == wanted {
            let mut name = wanted;
            name.append("_");
            proof {
                reveal_strlit("_");
                assert("_"@ =~= seq!['_']);
                assert(keywords()[i as int]@ == token@);
            }
            return Some(name);
        }
        i += 1;
    }
    None
}

/// The name to use in place of `token`.
fn safe(token: &str) -> (name: String)
    ensures
        name@ == safe_name(token@),
{
    match dekeyword(token) {
        Some(name) => name,
        None => token.to_owned(),
    }
}

// ---------------------------------------------------------------------
// Documentation lines
// ---------------------------------------------------------------------

/// The position of the first line feed of `s` at or after `from`, or the
/// length of `s` where there is none.
pub open spec fn line_end(s: Seq<char>, from: int) -> int
    decreases s.len() - from,
{
    if from >= s.len() {
        s.len() as int
    } else if s[from] == '\n' {
        from
    } else {
        line_end(s, from + 1)
    }
}

/// The lines of `s` from position `from` on, each written as a line of
/// documentation: `/// `, the line, a line feed. A line ends at a line
/// feed or at the end of the text; a carriage return before the line feed
/// belongs to the line ending. A text that ends with a line feed has no
/// empty last line.
pub open spec fn doc_lines(s: Seq<char>, from: int) -> Seq<char>
    decreases s.len() - from,
{
    if from < 0 || from >= s.len() || line_end(s, from) < from {
        Seq::empty()
    } else {
        let end = line_end(s, from);
        let stop = if end < s.len() && end > from && s[end - 1] == '\r' {
            end - 1
        } else {
            end
        };
        "/// "@ + s.subrange(from, stop) + "\n"@ + if end < s.len() {
            doc_lines(s, end + 1)
        } else {
            Seq::empty()
        }
    }
}

proof fn lemma_line_end(s: Seq<char>, from: int)
    requires
        0 <= from <= s.len(),
    ensures
        from <= line_end(s, from) <= s.len(),
        line_end(s, from) < s.len() ==> s[line_end(s, from)] == '\n',
        forall|k: int| from <= k < line_end(s, from) ==> s[k] != '\n',
    decreases s.len() - from,
{
    if from < s.len() && s[from] != '\n' {
        lemma_line_end(s, from + 1);
    }
}

/// Writes each line of `text` as a line of documentation.
pub fn str_lines_to_doc(text: &str) -> (doc: String)
    ensures
        doc@ == doc_lines(text@, 0),
{
    let n: usize = text.unicode_len();
    let mut doc = String::new();
    let mut start: usize = 0;
    assert(doc@ + doc_lines(text@, 0) =~= doc_lines(text@, 0));
    while start < n
        invariant
            n == text@.len(),
            start <= n,
            doc@ + doc_lines(text@, start as int) == doc_lines(text@, 0),
        decreases n - start,
    {
        let mut end: usize = start;
        while end < n && text.get_char(end) != '\n'
            invariant
                n == text@.len(),
                start <= end <= n,
                forall|k: int| start <= k < end ==> text@[k] != '\n',
            decreases n - end,
        {
            end += 1;
        }
        proof {
            lemma_line_end(text@, start as int);
            let e = line_end(text@, start as int);
            if e < end {
                assert(text@[e] != '\n');
            }
            if end < e {
                assert(text@[end as int] != '\n');
            }
            assert(e == end);
        }
        let stop: usize = if end < n && end > start && text.get_char(end - 1) == '\r' {
            end - 1
        } else {
            end
        };
        let ghost before = doc@;
        doc.append("/// ");
        doc.append(text.substring_char(start, stop));
        doc.append("\n");
        proof {
            assert(doc@ =~= before + ("/// "@ + text@.subrange(start as int, stop as int)
                + "\n"@));
            let next = if end < n {
                end + 1
            } else {
                n as int
            };
            assert(doc@ + doc_lines(text@, next) =~= before + doc_lines(text@, start as int));
        }
        start = if end < n {
            end + 1
        } else {
            n
        };
    }
    proof {
        assert(doc_lines(text@, start as int) =~= Seq::empty());
        assert(doc@ + doc_lines(text@, start as int) =~= doc@);
    }
    doc
}


// ---------------------------------------------------------------------
// Paths
// ---------------------------------------------------------------------

impl Paths {
    /// The paths of the builders in the crate that is reached as
    /// `crate_path`.
    pub fn from_crate_path(crate_path: &str) -> (p: Paths)
        ensures
            p.block_field_builder@ == crate_path@ + "::block::BlockFieldBuilder"@,
            p.block_input_builder@ == crate_path@ + "::block::BlockInputBuilder"@,
            p.block_normal_builder@ == crate_path@ + "::block::BlockNormalBuilder"@,
            p.stack_builder@ == crate_path@ + "::stack::StackBuilder"@,
    {
        Paths {
            block_field_builder: crate_path.to_owned().concat("::block::BlockFieldBuilder"),
            block_input_builder: crate_path.to_owned().concat("::block::BlockInputBuilder"),
            block_normal_builder: crate_path.to_owned().concat("::block::BlockNormalBuilder"),
            stack_builder: crate_path.to_owned().concat("::stack::StackBuilder"),
        }
    }
}

// ---------------------------------------------------------------------
// Parameters
// ---------------------------------------------------------------------

/// The first `n` of `items`, each written between `open` and `close`.
pub open spec fn bullets(items: Seq<String>, n: nat, open: Seq<char>, close: Seq<char>) -> Seq<
    char,
>
    decreases n,
{
    if n == 0 || n > items.len() {
        Seq::empty()
    } else {
        bullets(items, (n - 1) as nat, open, close) + open + items[n - 1]@ + close
    }
}

/// All of `items` where there are any, each written between `open` and
/// `close`.
pub open spec fn listed(items: Option<Vec<String>>, open: Seq<char>, close: Seq<char>) -> Seq<
    char,
> {
    match items {
        Some(v) => bullets(v@, v@.len(), open, close),
        None => Seq::empty(),
    }
}

/// What the documentation says of a field parameter: nothing where the
/// catalog lists neither values nor categories for it, else the
/// categories and then the values that it accepts, in the order of the
/// catalog.
pub open spec fn parameter_doc(
    identifier: Seq<char>,
    possible_values: Option<Vec<String>>,
    possible_categories: Option<Vec<String>>,
) -> Option<Seq<char>> {
    if possible_values is None && possible_categories is None {
        None
    } else {
        Some(
            "`"@ + identifier + "` accepts:\n"@ + listed(possible_categories, " - "@, "\n"@)
                + listed(possible_values, " - `\""@, "\"`\n"@),
        )
    }
}

fn push_bullets(s: &mut String, items: &Option<Vec<String>>, open: &str, close: &str)
    ensures
        final(s)@ == old(s)@ + listed(*items, open@, close@),
{
    match items {
        None => {
            assert(s@ =~= old(s)@ + listed(*items, open@, close@));
        },
        Some(v) => {
            let n: usize = v.len();
            let mut i: usize = 0;
            assert(s@ =~= old(s)@ + bullets(v@, 0, open@, close@));
            while i < n
                invariant
                    n == v@.len(),
                    i <= n,
                    s@ == old(s)@ + bullets(v@, i as nat, open@, close@),
                decreases n - i,
            {
                s.append(open);
                s.append(v[i].as_str());
                s.append(close);
                assert(s@ =~= old(s)@ + bullets(v@, (i + 1) as nat, open@, close@));
                i += 1;
            }
        },
    }
}

/// Writes what the documentation says of a field parameter.
pub fn build_fn_parameter_doc(
    identifier: &str,
    possible_values: &Option<Vec<String>>,
    possible_categories: &Option<Vec<String>>,
) -> (r: Option<String>)
    ensures
        match parameter_doc(identifier@, *possible_values, *possible_categories) {
            Some(text) => r is Some && r->Some_0@ == text,
            None => r is None,
        },
{
    if possible_values.is_none() && possible_categories.is_none() {
        return None;
    }
    let mut s = String::new();
    s.append("`");
    s.append(identifier);
    s.append("` accepts:\n");
    push_bullets(&mut s, possible_categories, " - ", "\n");
    push_bullets(&mut s, possible_values, " - `\"", "\"`\n");
    assert(s@ =~= parameter_doc(identifier@, *possible_values, *possible_categories)->Some_0);
    Some(s)
}

/// How a parameter stands in the signature of the generated function:
/// its name, made safe, with the type of the builder that it takes.
pub open spec fn parameter_text(p: Parameter, paths: Paths) -> Seq<char> {
    safe_name(p.identifier@) + ": "@ + (if p.parameter_type is Field {
        paths.block_field_builder@
    } else {
        paths.block_input_builder@
    }) + ", "@
}

/// What the documentation of the generated function says of a parameter.
pub open spec fn parameter_note(p: Parameter) -> Seq<char> {
    match p.parameter_type {
        ParameterType::Field { possible_values, possible_categories } => match parameter_doc(
            safe_name(p.identifier@),
            possible_values,
            possible_categories,
        ) {
            Some(text) => text,
            None => Seq::empty(),
        },
        _ => Seq::empty(),
    }
}

/// The message about a parameter that refuses strings.
pub open spec fn deny_message(block_identifier: Seq<char>, p: Parameter) -> Seq<char> {
    block_identifier + "."@ + safe_name(p.identifier@) + " deny strings aren't supproted"@
}

/// The signature of the generated function: its parameters among the
/// first `n` pieces, in order.
pub open spec fn signature(parameters: Seq<ParameterOrText>, n: nat, paths: Paths) -> Seq<char>
    decreases n,
{
    if n == 0 || n > parameters.len() {
        Seq::empty()
    } else {
        signature(parameters, (n - 1) as nat, paths) + match parameters[n - 1] {
            ParameterOrText::Parameter(p) => parameter_text(p, paths),
            ParameterOrText::Text(_) => Seq::empty(),
        }
    }
}

/// What the documentation says of the parameters among the first `n`
/// pieces.
pub open spec fn signature_notes(parameters: Seq<ParameterOrText>, n: nat) -> Seq<char>
    decreases n,
{
    if n == 0 || n > parameters.len() {
        Seq::empty()
    } else {
        signature_notes(parameters, (n - 1) as nat) + match parameters[n - 1] {
            ParameterOrText::Parameter(p) => parameter_note(p),
            ParameterOrText::Text(_) => Seq::empty(),
        }
    }
}

/// The messages about the parameters among the first `n` pieces that
/// refuse strings.
pub open spec fn deny_messages(
    block_identifier: Seq<char>,
    parameters: Seq<ParameterOrText>,
    n: nat,
) -> Seq<Seq<char>>
    decreases n,
{
    if n == 0 || n > parameters.len() {
        Seq::empty()
    } else {
        deny_messages(block_identifier, parameters, (n - 1) as nat) + match parameters[n - 1] {
            ParameterOrText::Parameter(p) => if p.deny_strings {
                seq![deny_message(block_identifier, p)]
            } else {
                Seq::empty()
            },
            ParameterOrText::Text(_) => Seq::empty(),
        }
    }
}

/// The messages, each by its characters.
pub open spec fn texts(messages: Seq<String>) -> Seq<Seq<char>> {
    Seq::new(messages.len(), |i: int| messages[i]@)
}

/// Writes the signature of the generated function and what its
/// documentation says of the parameters, and adds a message for each
/// parameter that refuses strings.
pub fn build_fn_parameter(
    block_identifier: &str,
    messages: &mut Vec<String>,
    parameters: &Vec<ParameterOrText>,
    paths: &Paths,
) -> (r: (String, String))
    ensures
        r.0@ == signature(parameters@, parameters@.len(), *paths),
        r.1@ == signature_notes(parameters@, parameters@.len()),
        texts(final(messages)@) == texts(old(messages)@) + deny_messages(
            block_identifier@,
            parameters@,
            parameters@.len(),
        ),
{
    let n: usize = parameters.len();
    let mut parameters_string = String::new();
    let mut parameters_doc = String::new();
    let mut i: usize = 0;
    assert(texts(messages@) =~= texts(old(messages)@) + deny_messages(
        block_identifier@,
        parameters@,
        0,
    ));
    while i < n
        invariant
            n == parameters@.len(),
            i <= n,
            parameters_string@ == signature(parameters@, i as nat, *paths),
            parameters_doc@ == signature_notes(parameters@, i as nat),
            texts(messages@) == texts(old(messages)@) + deny_messages(
                block_identifier@,
                parameters@,
                i as nat,
            ),
        decreases n - i,
    {
        let ghost told = messages@;
        match &parameters[i] {
            ParameterOrText::Text(_) => {
                assert(parameters_string@ =~= signature(parameters@, (i + 1) as nat, *paths));
                assert(parameters_doc@ =~= signature_notes(parameters@, (i + 1) as nat));
            },
            ParameterOrText::Parameter(p) => {
                let identifier = safe(p.identifier.as_str());
                parameters_string.append(identifier.as_str());
                parameters_string.append(": ");
                match &p.parameter_type {
                    ParameterType::Field { possible_values, possible_categories } => {
                        parameters_string.append(paths.block_field_builder.as_str());
                        match build_fn_parameter_doc(
                            identifier.as_str(),
                            possible_values,
                            possible_categories,
                        ) {
                            Some(doc) => {
                                parameters_doc.append(doc.as_str());
                            },
                            None => {},
                        }
                    },
                    _ => {
                        parameters_string.append(paths.block_input_builder.as_str());
                    },
                }
                parameters_string.append(", ");
                if p.deny_strings {
                    let mut message = block_identifier.to_owned();
                    message.append(".");
                    message.append(identifier.as_str());
                    message.append(" deny strings aren't supproted");
                    assert(message@ =~= deny_message(block_identifier@, *p));
                    messages.push(message);
                    assert(texts(messages@) =~= texts(told).push(
                        deny_message(block_identifier@, *p),
                    ));
                }
                assert(parameters_string@ =~= signature(parameters@, (i + 1) as nat, *paths));
                assert(parameters_doc@ =~= signature_notes(parameters@, (i + 1) as nat));
            },
        }
        assert(texts(messages@) =~= texts(old(messages)@) + deny_messages(
            block_identifier@,
            parameters@,
            (i + 1) as nat,
        ));
        i += 1;
    }
    (parameters_string, parameters_doc)
}

// ---------------------------------------------------------------------
// Bodies
// ---------------------------------------------------------------------

/// The line of the generated body that hands a parameter to the block
/// builder: as a field for a field parameter, as an input otherwise.
pub open spec fn body_line(p: Parameter) -> Seq<char> {
    (if p.parameter_type is Field {
        "    block_builder.add_field(\""@
    } else {
        "    block_builder.add_input(\""@
    }) + p.key@ + "\", "@ + p.identifier@ + ");\n"@
}

/// The lines of the generated body for the parameters among the first
/// `n` pieces.
pub open spec fn body_lines(parameters: Seq<ParameterOrText>, n: nat) -> Seq<char>
    decreases n,
{
    if n == 0 || n > parameters.len() {
        Seq::empty()
    } else {
        body_lines(parameters, (n - 1) as nat) + match parameters[n - 1] {
            ParameterOrText::Parameter(p) => body_line(p),
            ParameterOrText::Text(_) => Seq::empty(),
        }
    }
}

/// One of the first `n` pieces is a parameter.
pub open spec fn has_parameter(parameters: Seq<ParameterOrText>, n: nat) -> bool {
    exists|i: int| 0 <= i < n && i < parameters.len() && (#[trigger] parameters[i]) is Parameter
}

/// The body of the generated function: it makes the block builder,
/// mutable where it goes on to change it, hands it each parameter, marks
/// a menu as a shadow, and starts a stack with it.
pub open spec fn fn_body(
    opcode: Seq<char>,
    block_type: BlockType,
    parameters: Seq<ParameterOrText>,
    paths: Paths,
) -> Seq<char> {
    (if has_parameter(parameters, parameters.len()) || block_type == BlockType::Menu {
        "    let mut block_builder = "@
    } else {
        "    let block_builder = "@
    }) + paths.block_normal_builder@ + "::new(\""@ + opcode + "\");\n"@ + body_lines(
        parameters,
        parameters.len(),
    ) + (if block_type == BlockType::Menu {
        "    block_builder.set_shadow(true);\n"@
    } else {
        Seq::empty()
    }) + "    "@ + paths.stack_builder@ + "::start(block_builder)\n"@
}

fn any_parameter(parameters: &Vec<ParameterOrText>) -> (b: bool)
    ensures
        b == has_parameter(parameters@, parameters@.len()),
{
    let n: usize = parameters.len();
    let mut i: usize = 0;
    while i < n
        invariant
            n == parameters@.len(),
            i <= n,
            !has_parameter(parameters@, i as nat),
        decreases n - i,
    {
        match &parameters[i] {
            ParameterOrText::Parameter(_) => {
                assert(parameters@[i as int] is Parameter);
                return true;
            },
            ParameterOrText::Text(_) => {},
        }
        i += 1;
    }
    false
}

/// Writes the body of the generated function.
pub fn build_fn_body(
    opcode: &str,
    block_type: &BlockType,
    parameters: &Vec<ParameterOrText>,
    paths: &Paths,
) -> (body: String)
    ensures
        body@ == fn_body(opcode@, *block_type, parameters@, *paths),
{
    let is_menu = match block_type {
        BlockType::Menu => true,
        BlockType::Other => false,
    };
    let need_changes = any_parameter(parameters) || is_menu;
    let mut body = String::new();
    if need_changes {
        body.append("    let mut block_builder = ");
    } else {
        body.append("    let block_builder = ");
    }
    body.append(paths.block_normal_builder.as_str());
    body.append("::new(\"");
    body.append(opcode);
    body.append("\");\n");
    let ghost head = body@;
    let n: usize = parameters.len();
    let mut i: usize = 0;
    assert(body@ =~= head + body_lines(parameters@, 0));
    while i < n
        invariant
            n == parameters@.len(),
            i <= n,
            body@ == head + body_lines(parameters@, i as nat),
        decreases n - i,
    {
        match &parameters[i] {
            ParameterOrText::Text(_) => {},
            ParameterOrText::Parameter(p) => {
                match &p.parameter_type {
                    ParameterType::Field { .. } => {
                        body.append("    block_builder.add_field(\"");
                    },
                    _ => {
                        body.append("    block_builder.add_input(\"");
                    },
                }
                body.append(p.key.as_str());
                body.append("\", ");
                body.append(p.identifier.as_str());
                body.append(");\n");
            },
        }
        assert(body@ =~= head + body_lines(parameters@, (i + 1) as nat));
        i += 1;
    }
    if is_menu {
        body.append("    block_builder.set_shadow(true);\n");
    }
    body.append("    ");
    body.append(paths.stack_builder.as_str());
    body.append("::start(block_builder)\n");
    assert(body@ =~= fn_body(opcode@, *block_type, parameters@, *paths));
    body
}

// ---------------------------------------------------------------------
// Definitions
// ---------------------------------------------------------------------

/// The source of the constructor function for `block`: its
/// documentation, what is known of its parameters, and the function.
pub open spec fn definition(block: Block, paths: Paths) -> Seq<char> {
    doc_lines(block.doc@, 0) + doc_lines(
        signature_notes(block.parameters@, block.parameters@.len()),
        0,
    ) + "pub fn "@ + safe_name(block.identifier@) + "("@ + signature(
        block.parameters@,
        block.parameters@.len(),
        paths,
    ) + ") -> "@ + paths.stack_builder@ + " {\n"@ + fn_body(
        block.opcode@,
        block.block_type,
        block.parameters@,
        paths,
    ) + "}\n\n"@
}

/// What there is to say about `block`: that it needs a constructor
/// written by hand; or else the note of its implementor, and a message
/// for each parameter that refuses strings.
pub open spec fn block_messages(block: Block) -> Seq<Seq<char>> {
    if block.manual {
        seq!["`"@ + block.identifier@ + "` requried manual implementation"@]
    } else {
        (match block.implementor_note {
            Some(note) => seq![block.identifier@ + ": "@ + note@],
            None => Seq::empty(),
        }) + deny_messages(
            safe_name(block.identifier@),
            block.parameters@,
            block.parameters@.len(),
        )
    }
}

/// The definitions of the first `n` blocks that need no constructor
/// written by hand, one after the other.
pub open spec fn definitions(blocks: Seq<Block>, n: nat, paths: Paths) -> Seq<char>
    decreases n,
{
    if n == 0 || n > blocks.len() {
        Seq::empty()
    } else {
        definitions(blocks, (n - 1) as nat, paths) + if blocks[n - 1].manual {
            Seq::empty()
        } else {
            definition(blocks[n - 1], paths)
        }
    }
}

/// The messages about the first `n` blocks, in order.
pub open spec fn all_messages(blocks: Seq<Block>, n: nat) -> Seq<Seq<char>>
    decreases n,
{
    if n == 0 || n > blocks.len() {
        Seq::empty()
    } else {
        all_messages(blocks, (n - 1) as nat) + block_messages(blocks[n - 1])
    }
}

/// Writes the constructor function of one block.
fn define_block(block: &Block, paths: &Paths, messages: &mut Vec<String>) -> (text: String)
    requires
        !block.manual,
    ensures
        text@ == definition(*block, *paths),
        texts(final(messages)@) == texts(old(messages)@) + block_messages(*block),
{
    let ghost told = messages@;
    match &block.implementor_note {
        Some(note) => {
            let mut message = block.identifier.clone();
            message.append(": ");
            message.append(note.as_str());
            messages.push(message);
        },
        None => {},
    }
    let ghost noted = messages@;
    let identifier = safe(block.identifier.as_str());
    let (parameters_string, parameters_doc) = build_fn_parameter(
        identifier.as_str(),
        messages,
        &block.parameters,
        paths,
    );
    proof {
        let first: Seq<Seq<char>> = if block.implementor_note is Some {
            seq![block.identifier@ + ": "@ + block.implementor_note->Some_0@]
        } else {
            Seq::empty()
        };
        assert(texts(noted) =~= texts(told) + first);
        assert(texts(messages@) =~= texts(told) + block_messages(*block));
    }
    let parameters_doc = str_lines_to_doc(parameters_doc.as_str());
    let mut text = str_lines_to_doc(block.doc.as_str());
    let fn_body = build_fn_body(
        block.opcode.as_str(),
        &block.block_type,
        &block.parameters,
        paths,
    );
    text.append(parameters_doc.as_str());
    text.append("pub fn ");
    text.append(identifier.as_str());
    text.append("(");
    text.append(parameters_string.as_str());
    text.append(") -> ");
    text.append(paths.stack_builder.as_str());
    text.append(" {\n");
    text.append(fn_body.as_str());
    text.append("}\n\n");
    assert(text@ =~= definition(*block, *paths));
    text
}

/// Writes the constructor functions of a catalog. The second part of the
/// result is what there is to say about the blocks: which need a
/// constructor written by hand, what their implementors noted, and which
/// parameters refuse strings.
pub fn define(blocks: &Blocks, paths: &Paths) -> (r: (String, Vec<String>))
    ensures
        r.0@ == definitions(blocks.0@, blocks.0@.len(), *paths),
        texts(r.1@) == all_messages(blocks.0@, blocks.0@.len()),
{
    let n: usize = blocks.0.len();
    let mut definitions_text = String::new();
    let mut messages: Vec<String> = Vec::new();
    let mut i: usize = 0;
    assert(texts(messages@) =~= all_messages(blocks.0@, 0));
    while i < n
        invariant
            n == blocks.0@.len(),
            i <= n,
            definitions_text@ == definitions(blocks.0@, i as nat, *paths),
            texts(messages@) == all_messages(blocks.0@, i as nat),
        decreases n - i,
    {
        let block = &blocks.0[i];
        let ghost told = messages@;
        if block.manual {
            let mut message = "`".to_owned();
            message.append(block.identifier.as_str());
            message.append("` requried manual implementation");
            messages.push(message);
            assert(texts(messages@) =~= texts(told) + block_messages(*block));
            assert(definitions_text@ =~= definitions(blocks.0@, (i + 1) as nat, *paths));
        } else {
            let text = define_block(block, paths, &mut messages);
            definitions_text.append(text.as_str());
        }
        assert(texts(messages@) =~= all_messages(blocks.0@, (i + 1) as nat));
        i += 1;
    }
    (definitions_text, messages)
}

} // verus!
