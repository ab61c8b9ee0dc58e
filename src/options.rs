//! The export options, read from the tokens of a declarative attribute such as
//! `package = "toolbox", class = "Main", exception = "toolbox/Failure", ptr`.
use vstd::prelude::*;
use vstd::string::StrSliceExecFns;
use crate::text::{push_char, same_text};
use crate::wrapper::ExportConfig;

verus! {

/// One token of an attribute's argument list.
#[derive(Clone, Debug, PartialEq, Eq)]
pub enum AttrToken {
    Ident(String),
    /// A literal as written, quotes included.
    Literal(String),
    /// Punctuation, groups and anything else; skipped.
    Other,
}

/// Why the options cannot be read.
#[derive(Clone, Copy, Debug, PartialEq, Eq, Structural)]
pub enum ConfigError {
    /// A key that names no option.
    UnexpectedOption,
}

/// What the reader expects next.
#[derive(Clone, Copy, Debug, PartialEq, Eq, Structural)]
pub enum Expect {
    Key,
    Namespace,
    Class,
    Exception,
}

/// The options read so far.
pub struct OptionsModel {
    pub expect: Expect,
    pub namespace: Option<Seq<char>>,
    pub class: Option<Seq<char>>,
    pub exception: Option<Seq<char>>,
    pub returns_reference: Option<bool>,
    pub inline: bool,
}

/// A literal's text without its quotes.
pub open spec fn unquote(s: Seq<char>) -> Seq<char>
    decreases s.len(),
{
    if s.len() == 0 {
        Seq::empty()
    } else if s.last() == '"' {
        unquote(s.drop_last())
    } else {
        unquote(s.drop_last()).push(s.last())
    }
}

pub open spec fn initial_options() -> OptionsModel {
    OptionsModel {
        expect: Expect::Key,
        namespace: None,
        class: None,
        exception: None,
        returns_reference: None,
        inline: false,
    }
}

/// One step of the reader. A key (`package` or `namespace`, `class`, `exception` or
/// `exceptionClass`) selects the option whose literal comes next; `ptr` (or
/// `returnsReference`) and `inline` are flags. Tokens that are neither the expected key nor literal are skipped.
pub open spec fn read_token(m: OptionsModel, t: AttrToken) -> Result<OptionsModel, ConfigError> {
    match m.expect {
        Expect::Key => match t {
            AttrToken::Ident(k) => if k@ == "package"@ || k@ == "namespace"@ {
                Ok(OptionsModel { expect: Expect::Namespace, ..m })
            } else if k@ == "class"@ {
                Ok(OptionsModel { expect: Expect::Class, ..m })
            } else if k@ == "exception"@ || k@ == "exceptionClass"@ {
                Ok(OptionsModel { expect: Expect::Exception, ..m })
            } else if k@ == "ptr"@ || k@ == "returnsReference"@ {
                Ok(OptionsModel { returns_reference: Some(true), ..m })
            } else if k@ == "inline"@ {
                Ok(OptionsModel { inline: true, ..m })
            } else {
                Err(ConfigError::UnexpectedOption)
            },
            _ => Ok(m),
        },
        Expect::Namespace => match t {
            AttrToken::Literal(l) => Ok(OptionsModel { expect: Expect::Key, namespace: Some(unquote(l@)), ..m }),
            _ => Ok(m),
        },
        Expect::Class => match t {
            AttrToken::Literal(l) => Ok(OptionsModel { expect: Expect::Key, class: Some(unquote(l@)), ..m }),
            _ => Ok(m),
        },
        Expect::Exception => match t {
            AttrToken::Literal(l) => Ok(OptionsModel { expect: Expect::Key, exception: Some(unquote(l@)), ..m }),
            _ => Ok(m),
        },
    }
}

/// The options after reading `ts` in order; the first failure is the result.
pub open spec fn read_tokens(ts: Seq<AttrToken>) -> Result<OptionsModel, ConfigError>
    decreases ts.len(),
{
    if ts.len() == 0 {
        Ok(initial_options())
    } else {
        match read_tokens(ts.drop_last()) {
            Err(e) => Err(e),
            Ok(m) => read_token(m, ts.last()),
        }
    }
}

pub open spec fn opt_view(s: Option<String>) -> Option<Seq<char>> {
    match s {
        Some(x) => Some(x@),
        None => None,
    }
}

/// `cfg` holds the options of `m`.
pub open spec fn holds_options(cfg: ExportConfig, m: OptionsModel) -> bool {
    &&& opt_view(cfg.namespace) == m.namespace
    &&& opt_view(cfg.class) == m.class
    &&& opt_view(cfg.exception_class) == m.exception
    &&& cfg.returns_reference == m.returns_reference
    &&& cfg.inline == m.inline
}

/// A literal's text without its quotes.
pub fn unquoted(s: &str) -> (r: String)
    ensures
        r@ == unquote(s@),
{
    let n = s.unicode_len();
    let mut out = String::new();
    let mut i: usize = 0;
    while i < n
        invariant
            n == s@.len(),
            i <= n,
            out@ == unquote(s@.subrange(0, i as int)),
        decreases n - i,
    {
        let c = s.get_char(i);
        proof {
            assert(s@.subrange(0, i + 1).drop_last() =~= s@.subrange(0, i as int));
        }
        if c != '"' {
            push_char(&mut out, c);
        }
        i = i + 1;
    }
    assert(s@.subrange(0, n as int) =~= s@);
    out
}

proof fn lemma_read_tokens_err_extends(ts: Seq<AttrToken>, k: int, e: ConfigError)
    requires
        0 <= k <= ts.len(),
        read_tokens(ts.subrange(0, k)) == Err::<OptionsModel, ConfigError>(e),
    ensures
        read_tokens(ts) == Err::<OptionsModel, ConfigError>(e),
    decreases ts.len() - k,
{
    if k == ts.len() {
        assert(ts.subrange(0, k) =~= ts);
    } else {
        assert(ts.subrange(0, k + 1).drop_last() =~= ts.subrange(0, k));
        lemma_read_tokens_err_extends(ts, k + 1, e);
    }
}

/// Reads the export options from an attribute's tokens. Missing required options are left
/// absent here and reported by the synthesizer.
pub fn parse_options(tokens: &Vec<AttrToken>) -> (r: Result<ExportConfig, ConfigError>)
    ensures
        match r {
            Ok(cfg) => read_tokens(tokens@) is Ok && holds_options(cfg, read_tokens(tokens@)->Ok_0),
            Err(e) => read_tokens(tokens@) == Err::<OptionsModel, ConfigError>(e),
        },
{
    let mut expect = Expect::Key;
    let mut cfg = ExportConfig {
        namespace: None,
        class: None,
        exception_class: None,
        returns_reference: None,
        inline: false,
    };
    let mut i: usize = 0;
    while i < tokens.len()
        invariant
            i <= tokens@.len(),
            read_tokens(tokens@.subrange(0, i as int)) is Ok,
            read_tokens(tokens@.subrange(0, i as int))->Ok_0.expect == expect,
            holds_options(cfg, read_tokens(tokens@.subrange(0, i as int))->Ok_0),
        decreases tokens@.len() - i,
    {
        proof {
            assert(tokens@.subrange(0, i + 1).drop_last() =~= tokens@.subrange(0, i as int));
            assert(tokens@.subrange(0, i + 1).last() == tokens@[i as int]);
        }
        match expect {
            Expect::Key => {
                if let AttrToken::Ident(k) = &tokens[i] {
                    let k = k.as_str();
                    if same_text(k, "package") || same_text(k, "namespace") {
                        expect = Expect::Namespace;
                    } else if same_text(k, "class") {
                        expect = Expect::Class;
                    } else if same_text(k, "exception") || same_text(k, "exceptionClass") {
                        expect = Expect::Exception;
                    } else if same_text(k, "ptr") || same_text(k, "returnsReference") {
                        cfg.returns_reference = Some(true);
                    } else if same_text(k, "inline") {
                        cfg.inline = true;
                    } else {
                        proof {
                            lemma_read_tokens_err_extends(tokens@, i + 1, ConfigError::UnexpectedOption);
                        }
                        return Err(ConfigError::UnexpectedOption);
                    }
                }
            },
            Expect::Namespace => {
                if let AttrToken::Literal(l) = &tokens[i] {
                    cfg.namespace = Some(unquoted(l.as_str()));
                    expect = Expect::Key;
                }
            },
            Expect::Class => {
                if let AttrToken::Literal(l) = &tokens[i] {
                    cfg.class = Some(unquoted(l.as_str()));
                    expect = Expect::Key;
                }
            },
            Expect::Exception => {
                if let AttrToken::Literal(l) = &tokens[i] {
                    cfg.exception_class = Some(unquoted(l.as_str()));
                    expect = Expect::Key;
                }
            },
        }
        i = i + 1;
    }
    assert(tokens@.subrange(0, i as int) =~= tokens@);
    Ok(cfg)
}

} // verus!
