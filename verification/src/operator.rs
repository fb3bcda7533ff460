//! The binary operators of the language and their textual tokens.
//!
//! Twelve operators have a token each; a thirteenth value, [`CalculateMark::NoMark`], stands for
//! "no operator" and is what every other text reads as.

use vstd::prelude::*;
use vstd::string::*;

verus! {

/// A binary operator, or [`NoMark`](CalculateMark::NoMark) where there is none.
#[derive(Debug, Clone, Copy, PartialEq, Eq, Structural)]
pub enum CalculateMark {
    /// No operator: the reading of every text that is not an operator token.
    NoMark,
    /// `+`
    Plus,
    /// `-`
    Minus,
    /// `*`
    Multiply,
    /// `/`
    Divide,
    /// `==`
    Equal,
    /// `!=`
    NotEqual,
    /// `>`
    Large,
    /// `<`
    Small,
    /// `>=`
    LargeOrEqual,
    /// `<=`
    SmallOrEqual,
    /// `&&`
    And,
    /// `||`
    Or,
}

/// The text that stands for `op`: its token, and the word `none` for
/// [`NoMark`](CalculateMark::NoMark).
pub open spec fn token(op: CalculateMark) -> Seq<char> {
    match op {
        CalculateMark::NoMark => seq!['n', 'o', 'n', 'e'],
        CalculateMark::Plus => seq!['+'],
        CalculateMark::Minus => seq!['-'],
        CalculateMark::Multiply => seq!['*'],
        CalculateMark::Divide => seq!['/'],
        CalculateMark::Equal => seq!['=', '='],
        CalculateMark::NotEqual => seq!['!', '='],
        CalculateMark::Large => seq!['>'],
        CalculateMark::Small => seq!['<'],
        CalculateMark::LargeOrEqual => seq!['>', '='],
        CalculateMark::SmallOrEqual => seq!['<', '='],
        CalculateMark::And => seq!['&', '&'],
        CalculateMark::Or => seq!['|', '|'],
    }
}

/// Whether `text` is the token of one of the twelve operators.
pub open spec fn is_operator_token(text: Seq<char>) -> bool {
    exists|op: CalculateMark| op != CalculateMark::NoMark && text == #[trigger] token(op)
}

/// Whether `text` is the one character `a`.
pub open spec fn is_one(text: Seq<char>, a: char) -> bool {
    text.len() == 1 && text[0] == a
}

/// Whether `text` is the two characters `a` and `b`, in this order.
pub open spec fn is_two(text: Seq<char>, a: char, b: char) -> bool {
    text.len() == 2 && text[0] == a && text[1] == b
}

/// The operator that `text` is the token of, and [`NoMark`](CalculateMark::NoMark) for any other
/// text.
pub open spec fn from_token(text: Seq<char>) -> CalculateMark {
    if is_one(text, '+') {
        CalculateMark::Plus
    } else if is_one(text, '-') {
        CalculateMark::Minus
    } else if is_one(text, '*') {
        CalculateMark::Multiply
    } else if is_one(text, '/') {
        CalculateMark::Divide
    } else if is_two(text, '=', '=') {
        CalculateMark::Equal
    } else if is_two(text, '!', '=') {
        CalculateMark::NotEqual
    } else if is_one(text, '>') {
        CalculateMark::Large
    } else if is_one(text, '<') {
        CalculateMark::Small
    } else if is_two(text, '>', '=') {
        CalculateMark::LargeOrEqual
    } else if is_two(text, '<', '=') {
        CalculateMark::SmallOrEqual
    } else if is_two(text, '&', '&') {
        CalculateMark::And
    } else if is_two(text, '|', '|') {
        CalculateMark::Or
    } else {
        CalculateMark::NoMark
    }
}

impl ToString for CalculateMark {
    /// The text of this operator.
    fn to_string(&self) -> (text: String)
        ensures
            text@ == token(*self),
    {
        let word: &str = match self {
            CalculateMark::NoMark => {
                proof {
                    reveal_strlit("none");
                }
                "none"
            },
            CalculateMark::Plus => {
                proof {
                    reveal_strlit("+");
                }
                "+"
            },
            CalculateMark::Minus => {
                proof {
                    reveal_strlit("-");
                }
                "-"
            },
            CalculateMark::Multiply => {
                proof {
                    reveal_strlit("*");
                }
                "*"
            },
            CalculateMark::Divide => {
                proof {
                    reveal_strlit("/");
                }
                "/"
            },
            CalculateMark::Equal => {
                proof {
                    reveal_strlit("==");
                }
                "=="
            },
            CalculateMark::NotEqual => {
                proof {
                    reveal_strlit("!=");
                }
                "!="
            },
            CalculateMark::Large => {
                proof {
                    reveal_strlit(">");
                }
                ">"
            },
            CalculateMark::Small => {
                proof {
                    reveal_strlit("<");
                }
                "<"
            },
            CalculateMark::LargeOrEqual => {
                proof {
                    reveal_strlit(">=");
                }
                ">="
            },
            CalculateMark::SmallOrEqual => {
                proof {
                    reveal_strlit("<=");
                }
                "<="
            },
            CalculateMark::And => {
                proof {
                    reveal_strlit("&&");
                }
                "&&"
            },
            CalculateMark::Or => {
                proof {
                    reveal_strlit("||");
                }
                "||"
            },
        };
        String::from_str(word)
    }
}

impl CalculateMark {
    /// Reads an operator token. A text that is no operator token, the empty text among them, reads
    /// as [`NoMark`](CalculateMark::NoMark); no text is an error.
    pub fn from_string(s: String) -> (op: Self)
        ensures
            op == from_token(s@),
            op != CalculateMark::NoMark <==> is_operator_token(s@),
    {
        let text = s.as_str();
        let len = text.unicode_len();
        let op = if len == 1 {
            let c = text.get_char(0);
            if c == '+' {
                CalculateMark::Plus
            } else if c == '-' {
                CalculateMark::Minus
            } else if c == '*' {
                CalculateMark::Multiply
            } else if c == '/' {
                CalculateMark::Divide
            } else if c == '>' {
                CalculateMark::Large
            } else if c == '<' {
                CalculateMark::Small
            } else {
                CalculateMark::NoMark
            }
        } else if len == 2 {
            let c = text.get_char(0);
            let d = text.get_char(1);
            if c == '=' && d == '=' {
                CalculateMark::Equal
            } else if c == '!' && d == '=' {
                CalculateMark::NotEqual
            } else if c == '>' && d == '=' {
                CalculateMark::LargeOrEqual
            } else if c == '<' && d == '=' {
                CalculateMark::SmallOrEqual
            } else if c == '&' && d == '&' {
                CalculateMark::And
            } else if c == '|' && d == '|' {
                CalculateMark::Or
            } else {
                CalculateMark::NoMark
            }
        } else {
            CalculateMark::NoMark
        };
        proof {
            lemma_from_token_names_the_operator(s@);
        }
        op
    }
}

/// [`from_token`] gives an operator exactly for the operator tokens, and then the operator whose
/// token the text is.
pub proof fn lemma_from_token_names_the_operator(text: Seq<char>)
    ensures
        from_token(text) != CalculateMark::NoMark <==> is_operator_token(text),
        from_token(text) != CalculateMark::NoMark ==> token(from_token(text)) == text,
{
    if from_token(text) != CalculateMark::NoMark {
        assert(token(from_token(text)) =~= text);
    }
    if is_operator_token(text) {
        let op = choose|op: CalculateMark|
            op != CalculateMark::NoMark && text == #[trigger] token(op);
        lemma_token_round_trip(op);
    }
}

/// Reading the text of an operator gives that operator back. This holds of all thirteen values:
/// the twelve tokens differ from each other, and the word for
/// [`NoMark`](CalculateMark::NoMark) is none of them.
pub proof fn lemma_token_round_trip(op: CalculateMark)
    ensures
        from_token(token(op)) == op,
{
}

/// A text that is none of the twelve operator tokens reads as
/// [`NoMark`](CalculateMark::NoMark).
pub proof fn lemma_other_text_is_no_mark(text: Seq<char>)
    requires
        !is_operator_token(text),
    ensures
        from_token(text) == CalculateMark::NoMark,
{
    lemma_from_token_names_the_operator(text);
}

} // verus!
