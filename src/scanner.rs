use vstd::prelude::*;

use sqlparser::dialect::keywords::Keyword;
use sqlparser::dialect::PostgreSqlDialect;
use sqlparser::tokenizer::{Token, Tokenizer};

use crate::error::BuildError;

verus! {

/// The keywords that the scanner looks for.
#[derive(Debug, Clone, Copy, PartialEq, Eq, Structural)]
pub enum SqlKeyword {
    Create,
    Function,
    Language,
    /// Any other keyword, or none.
    Other,
}

/// A lexical token of SQL, as far as the scanner tells tokens apart.
#[derive(Debug, Clone)]
pub enum SqlToken {
    /// A keyword or an identifier: its text without quotes, and its keyword.
    Word { value: String, keyword: SqlKeyword },
    /// A statement separator `;`, or the end of the input.
    End,
    /// Any other token: punctuation, literals, whitespace.
    Other,
}

/// The characters of a token.
pub enum TokenView {
    Word { value: Seq<char>, keyword: SqlKeyword },
    End,
    Other,
}

impl View for SqlToken {
    type V = TokenView;

    open spec fn view(&self) -> TokenView {
        match self {
            SqlToken::Word { value, keyword } => TokenView::Word { value: value@, keyword: *keyword },
            SqlToken::End => TokenView::End,
            SqlToken::Other => TokenView::Other,
        }
    }
}

/// The tokens of an SQL text under the PostgreSQL dialect, or `None` where
/// the text does not tokenize.
pub uninterp spec fn sql_tokens(text: Seq<char>) -> Option<Seq<TokenView>>;

/// Relies on sqlparser's `Tokenizer::tokenize` with `PostgreSqlDialect`: the
/// tokens depend on the text alone. Each token keeps its variant: a word with
/// its value and keyword, `;` and the end marker as `End`, the rest as `Other`.
#[verifier::external_body]
fn tokenize_sql(sql: &str) -> (r: Result<Vec<SqlToken>, String>)
    ensures
        match sql_tokens(sql@) {
            Some(ts) => r is Ok && r->Ok_0@.map_values(|t: SqlToken| t@) == ts,
            None => r is Err,
        },
{
    match Tokenizer::new(&PostgreSqlDialect {}, sql).tokenize() {
        Ok(ts) => Ok(ts.into_iter().map(|t| match t {
            Token::Word(w) => SqlToken::Word { value: w.value, keyword: match w.keyword {
                Keyword::CREATE => SqlKeyword::Create,
                Keyword::FUNCTION => SqlKeyword::Function,
                Keyword::LANGUAGE => SqlKeyword::Language,
                _ => SqlKeyword::Other,
            } },
            Token::SemiColon | Token::EOF => SqlToken::End,
            _ => SqlToken::Other,
        }).collect()),
        Err(e) => Err(e.to_string()),
    }
}

/// A word with the keyword `k`.
pub open spec fn has_keyword(t: TokenView, k: SqlKeyword) -> bool {
    t matches TokenView::Word { keyword, .. } && keyword == k
}

/// A word that names the native language: `c` or `C`.
pub open spec fn names_c(t: TokenView) -> bool {
    t matches TokenView::Word { value, .. } && (value == seq!['c'] || value == seq!['C'])
}

/// The position `k` tokens after `i`, or the end of `ts`.
pub open spec fn next(ts: Seq<TokenView>, i: int, k: int) -> int {
    if i + k > ts.len() {
        ts.len() as int
    } else {
        i + k
    }
}

/// The names that the scan of `ts` from position `i` on emits. `pending` is the
/// name of the function whose statement is being searched for `LANGUAGE`.
/// A `CREATE` is followed, one token on, by `FUNCTION`, and one token on again
/// by the name; then `LANGUAGE` and, one token on, `c` keep the name, while the
/// end of the statement or of the input drops it. Every token that does not fit
/// is consumed and the scan goes on: it never goes back.
pub open spec fn scan(ts: Seq<TokenView>, i: int, pending: Option<Seq<char>>) -> Seq<Seq<char>>
    decreases ts.len() - i,
{
    if i < 0 || i >= ts.len() {
        seq![]
    } else {
        match pending {
            None => if has_keyword(ts[i], SqlKeyword::Create) {
                if i + 2 < ts.len() && has_keyword(ts[i + 2], SqlKeyword::Function) {
                    if i + 4 < ts.len() && ts[i + 4] is Word {
                        scan(ts, next(ts, i, 5), Some(ts[i + 4]->Word_value))
                    } else {
                        scan(ts, next(ts, i, 5), None)
                    }
                } else {
                    scan(ts, next(ts, i, 3), None)
                }
            } else {
                scan(ts, next(ts, i, 1), None)
            },
            Some(name) => if has_keyword(ts[i], SqlKeyword::Language) {
                if i + 2 < ts.len() && names_c(ts[i + 2]) {
                    seq![name] + scan(ts, next(ts, i, 3), None)
                } else {
                    scan(ts, next(ts, i, 3), None)
                }
            } else if ts[i] is End {
                scan(ts, next(ts, i, 1), None)
            } else {
                scan(ts, next(ts, i, 1), Some(name))
            },
        }
    }
}

/// The names of the native-language functions that a token sequence declares, in order.
pub open spec fn native_functions(ts: Seq<TokenView>) -> Seq<Seq<char>> {
    scan(ts, 0, None)
}

/// The characters of the pending name, if any.
pub open spec fn pending_view(p: Option<String>) -> Option<Seq<char>> {
    match p {
        Some(s) => Some(s@),
        None => None,
    }
}

/// The characters of each string.
pub open spec fn names_view(names: Seq<String>) -> Seq<Seq<char>> {
    names.map_values(|s: String| s@)
}

/// The view of each token.
pub open spec fn tokens_view(tokens: Seq<SqlToken>) -> Seq<TokenView> {
    tokens.map_values(|t: SqlToken| t@)
}

fn is_keyword(t: &SqlToken, k: SqlKeyword) -> (r: bool)
    ensures
        r == has_keyword(t@, k),
{
    match t {
        SqlToken::Word { keyword, .. } => *keyword == k,
        _ => false,
    }
}

fn is_c_word(t: &SqlToken) -> (r: bool)
    ensures
        r == names_c(t@),
{
    match t {
        SqlToken::Word { value, .. } => {
            let v = value.as_str();
            if v.unicode_len() != 1 {
                assert(v@ != seq!['c'] && v@ != seq!['C']);
                false
            } else {
                let c = v.get_char(0);
                assert(v@ == seq![c]);
                c == 'c' || c == 'C'
            }
        },
        _ => false,
    }
}

/// The position `k` tokens after `i`, or `n` where that lies beyond it.
fn advance(i: usize, k: usize, n: usize) -> (r: usize)
    requires
        i <= n,
    ensures
        r == if i + k > n { n as int } else { i + k },
{
    if n - i < k {
        n
    } else {
        i + k
    }
}

/// The names of the native-language functions that `tokens` declare, in the
/// order in which they appear; a name declared twice is kept twice.
pub fn native_function_names(tokens: &Vec<SqlToken>) -> (names: Vec<String>)
    ensures
        names_view(names@) == native_functions(tokens_view(tokens@)),
{
    let ghost ts = tokens_view(tokens@);
    let n: usize = tokens.len();
    let mut names: Vec<String> = Vec::new();
    let mut pending: Option<String> = None;
    let mut i: usize = 0;
    while i < n
        invariant
            n == tokens.len(),
            ts == tokens_view(tokens@),
            i <= n,
            names_view(names@) + scan(ts, i as int, pending_view(pending)) == scan(ts, 0, None),
        decreases n - i,
    {
        let ghost before = names_view(names@);
        let current = pending;
        match current {
            None => {
                pending = None;
                if is_keyword(&tokens[i], SqlKeyword::Create) {
                    if 2 < n - i && is_keyword(&tokens[i + 2], SqlKeyword::Function) {
                        if 4 < n - i {
                            match &tokens[i + 4] {
                                SqlToken::Word { value, .. } => {
                                    pending = Some(value.clone());
                                },
                                _ => {},
                            }
                        }
                        i = advance(i, 5, n);
                    } else {
                        i = advance(i, 3, n);
                    }
                } else {
                    i = i + 1;
                }
            },
            Some(name) => {
                if is_keyword(&tokens[i], SqlKeyword::Language) {
                    let found = 2 < n - i && is_c_word(&tokens[i + 2]);
                    if found {
                        names.push(name);
                        assert(names_view(names@) == before + seq![name@]);
                    }
                    pending = None;
                    i = advance(i, 3, n);
                } else if matches!(tokens[i], SqlToken::End) {
                    pending = None;
                    i = i + 1;
                } else {
                    pending = Some(name);
                    i = i + 1;
                }
            },
        }
    }
    names
}

/// The names of the native-language functions that an SQL text declares, in
/// order; `ScanFailed` where the text does not tokenize.
pub fn scan_declarations(sql: &str) -> (r: Result<Vec<String>, BuildError>)
    ensures
        match sql_tokens(sql@) {
            Some(ts) => r is Ok && names_view(r->Ok_0@) == native_functions(ts),
            None => r is Err && r->Err_0 is ScanFailed,
        },
{
    match tokenize_sql(sql) {
        Ok(tokens) => Ok(native_function_names(&tokens)),
        Err(message) => Err(BuildError::ScanFailed(message)),
    }
}

} // verus!
