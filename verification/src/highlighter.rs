//! The highlighter engine and its grammar table.
//!
//! A grammar table maps language aliases to compiled tokenizers plus a
//! canonical display name; it is built once at startup and read-only
//! afterwards. The engine looks an alias up — an absent alias is a hard
//! error — runs the tokenizer eagerly over the whole source, checks the
//! collected event list, and mirrors it into inline HTML. A tokenizer
//! failure, and likewise a run that fails the check, falls back to the
//! escaped plain source, so the emitted block is never half-highlighted.

use crate::class_names::{CssClassNameGenerator, StandardClassNameGenerator};
use crate::categories::highlight_names;
use crate::text::{escape, escape_text, str_eq};
use crate::tokens::{
    spec_tokens_html, spec_tokens_wf, tokens_to_html_bytes, validate_tokens, TokenEvent,
};
use vstd::prelude::*;
use vstd::string::StringSliceAdditionalSpecFns;

verus! {

#[verifier::external_type_specification]
#[verifier::external_body]
pub struct ExHighlightConfiguration(tree_sitter_highlight::HighlightConfiguration);

#[verifier::external_type_specification]
#[verifier::external_body]
pub struct ExTsLanguage(tree_sitter::Language);

#[verifier::external_type_specification]
#[verifier::external_body]
pub struct ExQueryError(tree_sitter::QueryError);

/// One registered language: its display name and compiled tokenizer.
pub struct LanguageGrammar {
    pub canonical_name: String,
    pub config: tree_sitter_highlight::HighlightConfiguration,
}

/// The grammar table and the class-name generator one rendering
/// configuration shares between stylesheet and markup.
pub struct CodeBlockHighlighter<G> {
    pub languages: Vec<(String, LanguageGrammar)>,
    pub class_name_generator: G,
}

/// Why highlighting a block failed.
#[derive(Clone, PartialEq, Eq, Debug)]
pub enum HighlighterError {
    /// The fence named a language the table does not hold.
    UnknownLanguage(String),
}

/// A grammar could not be registered at startup.
#[derive(Debug)]
pub struct ConfigurationError {
    pub error: tree_sitter::QueryError,
}

/// Relies on String::from_utf8: accepts exactly the valid UTF-8 byte
/// sequences and returns the string of those bytes.
#[verifier::external_body]
fn string_from_utf8(bytes: Vec<u8>) -> (r: Option<String>)
    ensures
        match r {
            Some(s) => vstd::utf8::encode_utf8(s@) == bytes@,
            None => !vstd::utf8::valid_utf8(bytes@),
        },
{
    String::from_utf8(bytes).ok()
}

/// Relies on Highlighter::highlight of tree-sitter-highlight: runs one
/// grammar's tokenizer over the raw source bytes and collects the whole
/// event stream eagerly; an error anywhere discards the run.
#[verifier::external_body]
fn run_tokenizer(
    config: &tree_sitter_highlight::HighlightConfiguration,
    source: &str,
) -> (r: Option<Vec<TokenEvent>>)
{
    let mut highlighter = tree_sitter_highlight::Highlighter::new();
    let events = highlighter.highlight(config, source.as_bytes(), None, None, |_| None).ok()?;
    let mut out = Vec::new();
    for event in events {
        out.push(match event {
            Ok(tree_sitter_highlight::HighlightEvent::Source { start, end }) => TokenEvent::Source { start, end },
            Ok(tree_sitter_highlight::HighlightEvent::HighlightStart(h)) => TokenEvent::CategoryStart { category: h.0 },
            Ok(tree_sitter_highlight::HighlightEvent::HighlightEnd) => TokenEvent::CategoryEnd,
            Err(_) => return None,
        });
    }
    Some(out)
}

/// Whether the named bundled grammar's highlight queries compile under
/// the linked tree-sitter: a property of the fixed grammar crates
/// alone.
pub uninterp spec fn grammar_compiles(grammar_name: Seq<char>) -> bool;

/// Relies on HighlightConfiguration::configure of tree-sitter-highlight:
/// fixes the category names the tokenizer reports, by table index.
#[verifier::external_body]
fn configure_highlight_names(
    config: &mut tree_sitter_highlight::HighlightConfiguration,
    names: &Vec<String>,
)
{
    config.configure(names);
}

/// Relies on tree-sitter-rust and HighlightConfiguration::new: compiles
/// the bundled Rust grammar with its highlight and injection queries;
/// all inputs are fixed, so success depends on the crates alone.
#[verifier::external_body]
fn rust_grammar_config() -> (r: Result<
    tree_sitter_highlight::HighlightConfiguration,
    tree_sitter::QueryError,
>)
    ensures
        r is Ok <==> grammar_compiles("rust"@),
{
    tree_sitter_highlight::HighlightConfiguration::new(
        tree_sitter::Language::new(tree_sitter_rust::LANGUAGE),
        "rust",
        tree_sitter_rust::HIGHLIGHTS_QUERY,
        tree_sitter_rust::INJECTIONS_QUERY,
        "",
    )
}

/// Relies on tree-sitter-javascript and HighlightConfiguration::new:
/// compiles the bundled JavaScript grammar with its highlight,
/// injection and locals queries; all inputs are fixed, so success
/// depends on the crates alone.
#[verifier::external_body]
fn javascript_grammar_config() -> (r: Result<
    tree_sitter_highlight::HighlightConfiguration,
    tree_sitter::QueryError,
>)
    ensures
        r is Ok <==> grammar_compiles("javascript"@),
{
    tree_sitter_highlight::HighlightConfiguration::new(
        tree_sitter::Language::new(tree_sitter_javascript::LANGUAGE),
        "javascript",
        tree_sitter_javascript::HIGHLIGHT_QUERY,
        tree_sitter_javascript::INJECTIONS_QUERY,
        tree_sitter_javascript::LOCALS_QUERY,
    )
}

/// Relies on tree-sitter-cpp and HighlightConfiguration::new: compiles
/// the bundled C++ grammar with its highlight query; all inputs are
/// fixed, so success depends on the crates alone.
#[verifier::external_body]
fn cpp_grammar_config() -> (r: Result<
    tree_sitter_highlight::HighlightConfiguration,
    tree_sitter::QueryError,
>)
    ensures
        r is Ok <==> grammar_compiles("cpp"@),
{
    tree_sitter_highlight::HighlightConfiguration::new(
        tree_sitter::Language::new(tree_sitter_cpp::LANGUAGE),
        "cpp",
        tree_sitter_cpp::HIGHLIGHT_QUERY,
        "",
        "",
    )
}

/// Relies on tree-sitter-python and HighlightConfiguration::new:
/// compiles the bundled Python grammar with its highlight query; all
/// inputs are fixed, so success depends on the crates alone.
#[verifier::external_body]
fn python_grammar_config() -> (r: Result<
    tree_sitter_highlight::HighlightConfiguration,
    tree_sitter::QueryError,
>)
    ensures
        r is Ok <==> grammar_compiles("python"@),
{
    tree_sitter_highlight::HighlightConfiguration::new(
        tree_sitter::Language::new(tree_sitter_python::LANGUAGE),
        "python",
        tree_sitter_python::HIGHLIGHTS_QUERY,
        "",
        "",
    )
}

/// Configures one compiled grammar under its display name, or keeps the
/// compile error.
fn make_grammar(
    display_name: &str,
    compiled: Result<tree_sitter_highlight::HighlightConfiguration, tree_sitter::QueryError>,
) -> (r: Result<LanguageGrammar, ConfigurationError>)
    ensures
        r is Ok <==> compiled is Ok,
        r matches Ok(g) ==> g.canonical_name@ == display_name@,
{
    let mut config = match compiled {
        Ok(c) => c,
        Err(error) => {
            return Err(ConfigurationError { error });
        },
    };
    let names = highlight_names();
    configure_highlight_names(&mut config, &names);
    Ok(LanguageGrammar { canonical_name: String::from_str(display_name), config })
}

/// All four standard grammars compile.
pub open spec fn spec_standard_grammars_compile() -> bool {
    &&& grammar_compiles("rust"@)
    &&& grammar_compiles("javascript"@)
    &&& grammar_compiles("cpp"@)
    &&& grammar_compiles("python"@)
}

/// The standard table: Rust, JavaScript, C++ and Python, each under two
/// aliases, in this order.
pub open spec fn spec_standard_table(entries: Seq<(String, LanguageGrammar)>) -> bool {
    &&& entries.len() == 8
    &&& entries[0].0@ == "rust"@ && entries[0].1.canonical_name@ == "Rust"@
    &&& entries[1].0@ == "rs"@ && entries[1].1.canonical_name@ == "Rust"@
    &&& entries[2].0@ == "javascript"@ && entries[2].1.canonical_name@ == "JavaScript"@
    &&& entries[3].0@ == "js"@ && entries[3].1.canonical_name@ == "JavaScript"@
    &&& entries[4].0@ == "c++"@ && entries[4].1.canonical_name@ == "C++"@
    &&& entries[5].0@ == "cpp"@ && entries[5].1.canonical_name@ == "C++"@
    &&& entries[6].0@ == "python"@ && entries[6].1.canonical_name@ == "Python"@
    &&& entries[7].0@ == "py"@ && entries[7].1.canonical_name@ == "Python"@
}

impl CodeBlockHighlighter<StandardClassNameGenerator> {
    /// The configuration the blog serves with: the standard grammar
    /// table under the standard prefix-dash generator.
    pub fn standard_config() -> (r: Result<
        CodeBlockHighlighter<StandardClassNameGenerator>,
        ConfigurationError,
    >)
        ensures
            r is Ok <==> spec_standard_grammars_compile(),
            match r {
                Ok(h) => spec_standard_table(h.languages@)
                    && h.class_name_generator.highlight_class_prefix@ == "highlight"@
                    && h.class_name_generator.image_class@ == "blog-image"@,
                Err(_) => true,
            },
    {
        let mut languages: Vec<(String, LanguageGrammar)> = Vec::new();
        let mut k: usize = 0;
        while k < 2
            invariant
                k <= 2,
                languages@.len() == k,
                forall|i: int|
                    0 <= i < k ==> (#[trigger] languages@[i]).1.canonical_name@ == "Rust"@,
                k >= 1 ==> languages@[0].0@ == "rust"@ && grammar_compiles("rust"@),
                k >= 2 ==> languages@[1].0@ == "rs"@,
            decreases 2 - k,
        {
            let grammar = match make_grammar("Rust", rust_grammar_config()) {
                Ok(g) => g,
                Err(e) => {
                    return Err(e);
                },
            };
            languages.push((String::from_str(if k == 0 { "rust" } else { "rs" }), grammar));
            k = k + 1;
        }
        let mut k: usize = 0;
        while k < 2
            invariant
                k <= 2,
                languages@.len() == 2 + k,
                languages@[0].0@ == "rust"@ && languages@[0].1.canonical_name@ == "Rust"@,
                languages@[1].0@ == "rs"@ && languages@[1].1.canonical_name@ == "Rust"@,
                grammar_compiles("rust"@),
                forall|i: int|
                    2 <= i < 2 + k ==> (#[trigger] languages@[i]).1.canonical_name@
                        == "JavaScript"@,
                k >= 1 ==> languages@[2].0@ == "javascript"@ && grammar_compiles("javascript"@),
                k >= 2 ==> languages@[3].0@ == "js"@,
            decreases 2 - k,
        {
            let grammar = match make_grammar("JavaScript", javascript_grammar_config()) {
                Ok(g) => g,
                Err(e) => {
                    return Err(e);
                },
            };
            languages.push((String::from_str(if k == 0 { "javascript" } else { "js" }), grammar));
            k = k + 1;
        }
        let mut k: usize = 0;
        while k < 2
            invariant
                k <= 2,
                languages@.len() == 4 + k,
                languages@[0].0@ == "rust"@ && languages@[0].1.canonical_name@ == "Rust"@,
                languages@[1].0@ == "rs"@ && languages@[1].1.canonical_name@ == "Rust"@,
                languages@[2].0@ == "javascript"@ && languages@[2].1.canonical_name@
                    == "JavaScript"@,
                languages@[3].0@ == "js"@ && languages@[3].1.canonical_name@ == "JavaScript"@,
                grammar_compiles("rust"@) && grammar_compiles("javascript"@),
                forall|i: int|
                    4 <= i < 4 + k ==> (#[trigger] languages@[i]).1.canonical_name@ == "C++"@,
                k >= 1 ==> languages@[4].0@ == "c++"@ && grammar_compiles("cpp"@),
                k >= 2 ==> languages@[5].0@ == "cpp"@,
            decreases 2 - k,
        {
            let grammar = match make_grammar("C++", cpp_grammar_config()) {
                Ok(g) => g,
                Err(e) => {
                    return Err(e);
                },
            };
            languages.push((String::from_str(if k == 0 { "c++" } else { "cpp" }), grammar));
            k = k + 1;
        }
        let mut k: usize = 0;
        while k < 2
            invariant
                k <= 2,
                languages@.len() == 6 + k,
                languages@[0].0@ == "rust"@ && languages@[0].1.canonical_name@ == "Rust"@,
                languages@[1].0@ == "rs"@ && languages@[1].1.canonical_name@ == "Rust"@,
                languages@[2].0@ == "javascript"@ && languages@[2].1.canonical_name@
                    == "JavaScript"@,
                languages@[3].0@ == "js"@ && languages@[3].1.canonical_name@ == "JavaScript"@,
                languages@[4].0@ == "c++"@ && languages@[4].1.canonical_name@ == "C++"@,
                languages@[5].0@ == "cpp"@ && languages@[5].1.canonical_name@ == "C++"@,
                grammar_compiles("rust"@) && grammar_compiles("javascript"@) && grammar_compiles(
                    "cpp"@,
                ),
                forall|i: int|
                    6 <= i < 6 + k ==> (#[trigger] languages@[i]).1.canonical_name@ == "Python"@,
                k >= 1 ==> languages@[6].0@ == "python"@ && grammar_compiles("python"@),
                k >= 2 ==> languages@[7].0@ == "py"@,
            decreases 2 - k,
        {
            let grammar = match make_grammar("Python", python_grammar_config()) {
                Ok(g) => g,
                Err(e) => {
                    return Err(e);
                },
            };
            languages.push((String::from_str(if k == 0 { "python" } else { "py" }), grammar));
            k = k + 1;
        }
        Ok(CodeBlockHighlighter {
            languages,
            class_name_generator: StandardClassNameGenerator::standard_generator(),
        })
    }
}

/// The table entry the alias resolves to, searching from entry `k`.
pub open spec fn spec_lookup_from(
    entries: Seq<(String, LanguageGrammar)>,
    alias: Seq<char>,
    k: int,
) -> Option<LanguageGrammar>
    decreases entries.len() - k,
    when 0 <= k <= entries.len()
{
    if k >= entries.len() {
        None
    } else if entries[k].0@ == alias {
        Some(entries[k].1)
    } else {
        spec_lookup_from(entries, alias, k + 1)
    }
}

/// The table entry the alias resolves to, if any.
pub open spec fn spec_lookup(entries: Seq<(String, LanguageGrammar)>, alias: Seq<char>) -> Option<
    LanguageGrammar,
> {
    spec_lookup_from(entries, alias, 0)
}

/// The markup that opens a rendered code block, around its display
/// name.
pub open spec fn spec_block_open(display: Seq<char>) -> Seq<char> {
    "<div class=\"code-block-div\"><p class=\"language-display\">"@ + display
        + "</p><pre class=\"code-block\"><code class=\"code-block-code\">"@
}

/// The markup that closes a rendered code block.
pub open spec fn spec_block_close() -> Seq<char> {
    "</code></pre></div>"@
}

/// An acceptable block body for a looked-up language: the rendering of
/// some well-formed tokenizer run, or — the total fallback — the
/// escaped plain source.
pub open spec fn spec_body_ok<G: CssClassNameGenerator>(
    body: Seq<char>,
    code_chars: Seq<char>,
    code_bytes: Seq<u8>,
    g: &G,
) -> bool {
    ||| body == escape_text(code_chars)
    ||| exists|tokens: Seq<TokenEvent>|
        #![trigger spec_tokens_html(tokens, code_bytes, g)]
        spec_tokens_wf(tokens, code_bytes.len() as int) && vstd::utf8::encode_utf8(body)
            == spec_tokens_html(tokens, code_bytes, g)
}

/// The block body for one source and one tokenizer outcome: the
/// rendering of the run when its event list checks out, else exactly
/// the escaped plain source with no inline spans — the total fallback
/// under tokenizer failure.
pub fn code_block_body_html<G: CssClassNameGenerator>(
    code: &str,
    tokens: Option<Vec<TokenEvent>>,
    g: &G,
) -> (r: String)
    ensures
        spec_body_ok(r@, code@, code.spec_bytes(), g),
        tokens is None ==> r@ == escape_text(code@),
        (tokens matches Some(t) && !spec_tokens_wf(t@, code.spec_bytes().len() as int)) ==> r@
            == escape_text(code@),
        tokens matches Some(t) ==> ((spec_tokens_wf(t@, code.spec_bytes().len() as int)
            && vstd::utf8::valid_utf8(spec_tokens_html(t@, code.spec_bytes(), g)))
            ==> vstd::utf8::encode_utf8(r@) == spec_tokens_html(t@, code.spec_bytes(), g)),
{
    let rendered: Option<String> = match tokens {
        Some(tokens) => {
            if validate_tokens(&tokens, code.as_bytes().len()) {
                let bytes = tokens_to_html_bytes(&tokens, code.as_bytes(), g);
                let s = string_from_utf8(bytes);
                proof {
                    if s is Some {
                        assert(spec_tokens_wf(tokens@, code.spec_bytes().len() as int));
                        assert(vstd::utf8::encode_utf8(s->0@) == spec_tokens_html(
                            tokens@,
                            code.spec_bytes(),
                            g,
                        ));
                    }
                }
                s
            } else {
                None
            }
        },
        None => None,
    };
    match rendered {
        Some(body) => body,
        None => {
            let mut fallback = String::from_str(code);
            escape(&mut fallback);
            fallback
        },
    }
}

impl<G: CssClassNameGenerator> CodeBlockHighlighter<G> {
    /// Finds the registered language for an alias.
    pub fn lookup(&self, alias: &str) -> (r: Option<&LanguageGrammar>)
        ensures
            match r {
                Some(l) => spec_lookup(self.languages@, alias@) == Some(*l),
                None => spec_lookup(self.languages@, alias@) is None,
            },
    {
        let n = self.languages.len();
        let mut k: usize = 0;
        while k < n
            invariant
                n == self.languages@.len(),
                k <= n,
                spec_lookup(self.languages@, alias@) == spec_lookup_from(
                    self.languages@,
                    alias@,
                    k as int,
                ),
            decreases n - k,
        {
            if str_eq(self.languages[k].0.as_str(), alias) {
                return Some(&self.languages[k].1);
            }
            k = k + 1;
        }
        None
    }

    /// Writes the block header: the `div`, the display name — the
    /// looked-up language's canonical name, or `Plain Text` with no
    /// language — and the opening `pre` and `code` tags. An alias
    /// outside the table is the `UnknownLanguage` error, and nothing is
    /// written.
    pub fn write_code_block_open_html(&self, output: &mut String, lang: Option<&str>) -> (r:
        Result<(), HighlighterError>)
        ensures
            match lang {
                None => r is Ok && final(output)@ == old(output)@ + spec_block_open("Plain Text"@),
                Some(l) => match spec_lookup(self.languages@, l@) {
                    Some(language) => r is Ok && final(output)@ == old(output)@ + spec_block_open(
                        language.canonical_name@,
                    ),
                    None => final(output)@ == old(output)@ && match r {
                        Err(HighlighterError::UnknownLanguage(n)) => n@ == l@,
                        _ => false,
                    },
                },
            },
    {
        let canonical_name: &str = match lang {
            Some(l) => match self.lookup(l) {
                Some(language) => language.canonical_name.as_str(),
                None => {
                    return Err(HighlighterError::UnknownLanguage(String::from_str(l)));
                },
            },
            None => "Plain Text",
        };
        output.append("<div class=\"code-block-div\"><p class=\"language-display\">");
        output.append(canonical_name);
        output.append("</p><pre class=\"code-block\"><code class=\"code-block-code\">");
        Ok(())
    }

    /// Writes the block body for one (language, source) pair: the
    /// rendering of a checked tokenizer run, or the escaped plain
    /// source when the run failed or its event list did not check out.
    /// With no language the source is written verbatim; an alias
    /// outside the table is the `UnknownLanguage` error, and nothing is
    /// written.
    pub fn write_highlighted_code_html(&self, output: &mut String, lang: Option<&str>, code: &str)
        -> (r: Result<(), HighlighterError>)
        ensures
            match lang {
                None => r is Ok && final(output)@ == old(output)@ + code@,
                Some(l) => match spec_lookup(self.languages@, l@) {
                    Some(_) => r is Ok && old(output)@.is_prefix_of(final(output)@)
                        && spec_body_ok(
                        final(output)@.skip(old(output)@.len() as int),
                        code@,
                        code.spec_bytes(),
                        &self.class_name_generator,
                    ),
                    None => final(output)@ == old(output)@ && match r {
                        Err(HighlighterError::UnknownLanguage(n)) => n@ == l@,
                        _ => false,
                    },
                },
            },
    {
        let l = match lang {
            None => {
                output.append(code);
                return Ok(());
            },
            Some(l) => l,
        };
        let language = match self.lookup(l) {
            Some(language) => language,
            None => {
                return Err(HighlighterError::UnknownLanguage(String::from_str(l)));
            },
        };
        let tokens = run_tokenizer(&language.config, code);
        let body = code_block_body_html(code, tokens, &self.class_name_generator);
        output.append(body.as_str());
        proof {
            assert((old(output)@ + body@).skip(old(output)@.len() as int) =~= body@);
        }
        Ok(())
    }

    /// Writes one whole rendered code block: header, body, closing
    /// tags. The error cases and the body are those of the header and
    /// body functions.
    pub fn write_code_block(&self, output: &mut String, lang: Option<&str>, code: &str) -> (r:
        Result<(), HighlighterError>)
        ensures
            match lang {
                None => r is Ok && final(output)@ == old(output)@ + spec_block_open("Plain Text"@)
                    + code@ + spec_block_close(),
                Some(l) => match spec_lookup(self.languages@, l@) {
                    Some(language) => r is Ok && exists|body: Seq<char>|
                        #![trigger spec_body_ok(body, code@, code.spec_bytes(), &self.class_name_generator)]
                        final(output)@ == old(output)@ + spec_block_open(language.canonical_name@)
                            + body + spec_block_close() && spec_body_ok(
                            body,
                            code@,
                            code.spec_bytes(),
                            &self.class_name_generator,
                        ),
                    None => final(output)@ == old(output)@ && match r {
                        Err(HighlighterError::UnknownLanguage(n)) => n@ == l@,
                        _ => false,
                    },
                },
            },
    {
        self.write_code_block_open_html(output, lang)?;
        let ghost after_open = output@;
        self.write_highlighted_code_html(output, lang, code)?;
        let ghost after_body = output@;
        Self::write_code_block_close_html(output);
        proof {
            match lang {
                Some(l) => match spec_lookup(self.languages@, l@) {
                    Some(language) => {
                        let body = after_body.skip(after_open.len() as int);
                        assert(after_body =~= after_open + body);
                        assert(output@ =~= old(output)@ + spec_block_open(language.canonical_name@)
                            + body + spec_block_close());
                    },
                    None => {},
                },
                None => {
                    assert(output@ =~= old(output)@ + spec_block_open("Plain Text"@) + code@
                        + spec_block_close());
                },
            }
        }
        Ok(())
    }

    /// Writes the closing tags of a rendered code block.
    pub fn write_code_block_close_html(output: &mut String)
        ensures
            final(output)@ == old(output)@ + spec_block_close(),
    {
        output.append("</code></pre></div>");
    }
}

} // verus!
