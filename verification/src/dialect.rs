//! The per-backend formatting policy: SQL type names, identifier quoting,
//! and which constraints a backend supports.
//!
//! A dialect is a pure policy — no I/O. The backends form a closed set, so
//! the policy is a tagged variant: every backend keeps the default behaviour
//! except where it is named below.

use vstd::prelude::*;
use vstd::string::StringExecFns;
use crate::datatype::{ColDataType, ColDef, ColDefV};
use crate::strutil::{push_char, join_strings, spec_join};

verus! {

/// The formatting policy of one backend.
///
/// `Generic` is the default policy used for servers addressed by a plain
/// connection string.
#[derive(Debug, PartialEq, Eq, Structural, Clone, Copy)]
pub enum SqlDialect {
    MsAccess,
    MsExcel,
    Sqlite,
    Postgres,
    Generic,
}

pub open spec fn spec_text_type(d: SqlDialect) -> Seq<char> {
    seq!['T', 'E', 'X', 'T']
}

pub open spec fn spec_integer_type(d: SqlDialect) -> Seq<char> {
    match d {
        SqlDialect::MsExcel => seq!['N', 'U', 'M', 'B', 'E', 'R'],
        _ => seq!['I', 'N', 'T', 'E', 'G', 'E', 'R'],
    }
}

pub open spec fn spec_decimal_type(d: SqlDialect) -> Seq<char> {
    match d {
        SqlDialect::MsAccess => seq!['F', 'L', 'O', 'A', 'T'],
        SqlDialect::MsExcel => seq!['N', 'U', 'M', 'B', 'E', 'R'],
        SqlDialect::Sqlite => seq!['R', 'E', 'A', 'L'],
        SqlDialect::Postgres => seq![
            'D', 'O', 'U', 'B', 'L', 'E', ' ', 'P', 'R', 'E', 'C', 'I', 'S', 'I', 'O', 'N',
        ],
        SqlDialect::Generic => seq!['D', 'O', 'U', 'B', 'L', 'E'],
    }
}

pub open spec fn spec_datetime_type(d: SqlDialect) -> Seq<char> {
    match d {
        SqlDialect::Postgres => seq!['T', 'I', 'M', 'E', 'S', 'T', 'A', 'M', 'P'],
        _ => seq!['D', 'A', 'T', 'E', 'T', 'I', 'M', 'E'],
    }
}

pub open spec fn spec_support_nullability(d: SqlDialect) -> bool {
    !(d is MsExcel)
}

pub open spec fn spec_support_primary_key(d: SqlDialect) -> bool {
    !(d is MsExcel)
}

/// The character that opens a quoted identifier.
pub open spec fn spec_quote_open(d: SqlDialect) -> char {
    match d {
        SqlDialect::Postgres => '"',
        _ => '[',
    }
}

/// The character that closes a quoted identifier; embedded occurrences of it
/// are doubled.
pub open spec fn spec_quote_close(d: SqlDialect) -> char {
    match d {
        SqlDialect::Postgres => '"',
        _ => ']',
    }
}

/// The name with every occurrence of the quoting character doubled.
pub open spec fn spec_escaped(s: Seq<char>, q: char) -> Seq<char>
    decreases s.len(),
{
    if s.len() == 0 {
        Seq::empty()
    } else {
        (if s[0] == q {
            seq![q, q]
        } else {
            seq![s[0]]
        }) + spec_escaped(s.drop_first(), q)
    }
}

pub proof fn lemma_escaped_push(s: Seq<char>, c: char, q: char)
    ensures
        spec_escaped(s.push(c), q) == spec_escaped(s, q) + (if c == q {
            seq![q, q]
        } else {
            seq![c]
        }),
    decreases s.len(),
{
    reveal_with_fuel(spec_escaped, 3);
    let chunk = if c == q {
        seq![q, q]
    } else {
        seq![c]
    };
    if s.len() == 0 {
        assert(s.push(c)[0] == c);
        assert(s.push(c).drop_first() =~= Seq::<char>::empty());
        assert(spec_escaped(s.push(c), q) =~= spec_escaped(s, q) + chunk);
    } else {
        assert(s.push(c)[0] == s[0]);
        assert(s.push(c).drop_first() =~= s.drop_first().push(c));
        lemma_escaped_push(s.drop_first(), c, q);
        assert(spec_escaped(s.push(c), q) =~= spec_escaped(s, q) + chunk);
    }
}

/// Reading an escaped name back by the doubled-quote convention: each
/// doubled occurrence of the quoting character collapses to one.
pub open spec fn spec_unescaped(s: Seq<char>, q: char) -> Seq<char>
    decreases s.len(),
{
    if s.len() == 0 {
        Seq::empty()
    } else if s[0] == q {
        if s.len() >= 2 {
            seq![q] + spec_unescaped(s.subrange(2, s.len() as int), q)
        } else {
            seq![q]
        }
    } else {
        seq![s[0]] + spec_unescaped(s.drop_first(), q)
    }
}

/// Escaping is lossless: collapsing the doubled quote characters of an
/// escaped name gives the name back, whatever characters it held.
pub proof fn lemma_escape_round_trip(s: Seq<char>, q: char)
    ensures
        spec_unescaped(spec_escaped(s, q), q) == s,
    decreases s.len(),
{
    if s.len() > 0 {
        lemma_escape_round_trip(s.drop_first(), q);
        let tail_esc = spec_escaped(s.drop_first(), q);
        let e = spec_escaped(s, q);
        if s[0] == q {
            assert(e == seq![q, q] + tail_esc);
            assert(e[0] == q && e[1] == q && e.len() >= 2);
            assert(e.subrange(2, e.len() as int) =~= tail_esc);
            assert(spec_unescaped(e, q) == seq![q] + s.drop_first());
            assert(seq![q] + s.drop_first() =~= s);
        } else {
            assert(e == seq![s[0]] + tail_esc);
            assert(e[0] == s[0]);
            assert(e.drop_first() =~= tail_esc);
            assert(spec_unescaped(e, q) == seq![s[0]] + s.drop_first());
            assert(seq![s[0]] + s.drop_first() =~= s);
        }
    }
}

/// The identifier in its quoted form: opening quote, escaped name, closing
/// quote.
pub open spec fn spec_format_identifier(d: SqlDialect, name: Seq<char>) -> Seq<char> {
    seq![spec_quote_open(d)] + spec_escaped(name, spec_quote_close(d)) + seq![spec_quote_close(d)]
}

/// A formatted identifier round-trips: it is the name between one opening
/// and one closing quote, and a reader who strips those and collapses each
/// doubled closing-quote character recovers the original name exactly —
/// also when the name itself contains the quoting character.
pub proof fn lemma_format_identifier_round_trip(d: SqlDialect, name: Seq<char>)
    ensures
        spec_format_identifier(d, name).len() >= 2,
        spec_format_identifier(d, name)[0] == spec_quote_open(d),
        spec_format_identifier(d, name).last() == spec_quote_close(d),
        spec_unescaped(
            spec_format_identifier(d, name).subrange(
                1,
                spec_format_identifier(d, name).len() - 1,
            ),
            spec_quote_close(d),
        ) == name,
{
    let q = spec_quote_close(d);
    let f = spec_format_identifier(d, name);
    assert(f.subrange(1, f.len() - 1) =~= spec_escaped(name, q));
    lemma_escape_round_trip(name, q);
}

/// The SQL type name a dialect uses for a semantic column type.
pub open spec fn spec_type_str(d: SqlDialect, t: ColDataType) -> Seq<char> {
    match t {
        ColDataType::Text => spec_text_type(d),
        ColDataType::Number { decimal } => if decimal {
            spec_decimal_type(d)
        } else {
            spec_integer_type(d)
        },
        ColDataType::DateTime => spec_datetime_type(d),
    }
}

pub open spec fn spec_not_null_suffix() -> Seq<char> {
    seq![' ', 'N', 'O', 'T', ' ', 'N', 'U', 'L', 'L']
}

/// The DDL fragment for one column: quoted name, type name, and `NOT NULL`
/// exactly when the column asks for it and the dialect supports it.
pub open spec fn spec_col_def_str(d: SqlDialect, c: ColDefV) -> Seq<char> {
    spec_format_identifier(d, c.name) + seq![' '] + spec_type_str(d, c.data_type) + (if c.not_null
        && spec_support_nullability(d) {
        spec_not_null_suffix()
    } else {
        Seq::empty()
    })
}

/// The quoted names of the primary-key columns, in the order given.
pub open spec fn spec_pk_names(d: SqlDialect, cols: Seq<ColDefV>) -> Seq<Seq<char>>
    decreases cols.len(),
{
    if cols.len() == 0 {
        Seq::empty()
    } else {
        spec_pk_names(d, cols.drop_last()) + (if cols.last().primary_key {
            seq![spec_format_identifier(d, cols.last().name)]
        } else {
            Seq::empty()
        })
    }
}

pub open spec fn spec_comma_sep() -> Seq<char> {
    seq![',', ' ']
}

pub open spec fn spec_pk_prefix() -> Seq<char> {
    seq!['P', 'R', 'I', 'M', 'A', 'R', 'Y', ' ', 'K', 'E', 'Y', ' ', '(']
}

/// The primary-key clause over the given columns: empty when the dialect
/// does not support primary keys or no column is marked, otherwise
/// `PRIMARY KEY (...)` over the quoted names in the order given.
pub open spec fn spec_primary_key_str(d: SqlDialect, cols: Seq<ColDefV>) -> Seq<char> {
    if !spec_support_primary_key(d) || spec_pk_names(d, cols).len() == 0 {
        Seq::empty()
    } else {
        spec_pk_prefix() + spec_join(spec_pk_names(d, cols), spec_comma_sep()) + seq![')']
    }
}

impl SqlDialect {
    pub fn get_text_type(&self) -> (r: String)
        ensures
            r@ == spec_text_type(*self),
    {
        proof {
            reveal_strlit("TEXT");
            assert("TEXT"@ =~= spec_text_type(*self));
        }
        String::from_str("TEXT")
    }

    pub fn get_integer_type(&self) -> (r: String)
        ensures
            r@ == spec_integer_type(*self),
    {
        match self {
            SqlDialect::MsExcel => {
                proof {
                    reveal_strlit("NUMBER");
                    assert("NUMBER"@ =~= spec_integer_type(*self));
                }
                String::from_str("NUMBER")
            },
            _ => {
                proof {
                    reveal_strlit("INTEGER");
                    assert("INTEGER"@ =~= spec_integer_type(*self));
                }
                String::from_str("INTEGER")
            },
        }
    }

    pub fn get_decimal_type(&self) -> (r: String)
        ensures
            r@ == spec_decimal_type(*self),
    {
        match self {
            SqlDialect::MsAccess => {
                proof {
                    reveal_strlit("FLOAT");
                    assert("FLOAT"@ =~= spec_decimal_type(*self));
                }
                String::from_str("FLOAT")
            },
            SqlDialect::MsExcel => {
                proof {
                    reveal_strlit("NUMBER");
                    assert("NUMBER"@ =~= spec_decimal_type(*self));
                }
                String::from_str("NUMBER")
            },
            SqlDialect::Sqlite => {
                proof {
                    reveal_strlit("REAL");
                    assert("REAL"@ =~= spec_decimal_type(*self));
                }
                String::from_str("REAL")
            },
            SqlDialect::Postgres => {
                proof {
                    reveal_strlit("DOUBLE PRECISION");
                    assert("DOUBLE PRECISION"@ =~= spec_decimal_type(*self));
                }
                String::from_str("DOUBLE PRECISION")
            },
            SqlDialect::Generic => {
                proof {
                    reveal_strlit("DOUBLE");
                    assert("DOUBLE"@ =~= spec_decimal_type(*self));
                }
                String::from_str("DOUBLE")
            },
        }
    }

    pub fn get_datetime_type(&self) -> (r: String)
        ensures
            r@ == spec_datetime_type(*self),
    {
        match self {
            SqlDialect::Postgres => {
                proof {
                    reveal_strlit("TIMESTAMP");
                    assert("TIMESTAMP"@ =~= spec_datetime_type(*self));
                }
                String::from_str("TIMESTAMP")
            },
            _ => {
                proof {
                    reveal_strlit("DATETIME");
                    assert("DATETIME"@ =~= spec_datetime_type(*self));
                }
                String::from_str("DATETIME")
            },
        }
    }

    pub fn support_nullability(&self) -> (r: bool)
        ensures
            r == spec_support_nullability(*self),
    {
        match self {
            SqlDialect::MsExcel => false,
            _ => true,
        }
    }

    pub fn support_primary_key(&self) -> (r: bool)
        ensures
            r == spec_support_primary_key(*self),
    {
        match self {
            SqlDialect::MsExcel => false,
            _ => true,
        }
    }

    fn quote_open(&self) -> (r: char)
        ensures
            r == spec_quote_open(*self),
    {
        match self {
            SqlDialect::Postgres => '"',
            _ => '[',
        }
    }

    fn quote_close(&self) -> (r: char)
        ensures
            r == spec_quote_close(*self),
    {
        match self {
            SqlDialect::Postgres => '"',
            _ => ']',
        }
    }

    /// Quotes an identifier for this dialect, doubling every embedded
    /// occurrence of the closing quote character.
    pub fn format_identifier(&self, identifier: &str) -> (r: String)
        ensures
            r@ == spec_format_identifier(*self, identifier@),
    {
        let q = self.quote_close();
        let mut r = String::new();
        push_char(&mut r, self.quote_open());
        let n = identifier.unicode_len();
        let mut i: usize = 0;
        while i < n
            invariant
                n == identifier@.len(),
                i <= n,
                r@ == seq![spec_quote_open(*self)] + spec_escaped(
                    identifier@.subrange(0, i as int),
                    q,
                ),
                q == spec_quote_close(*self),
            decreases n - i,
        {
            let c = identifier.get_char(i);
            if c == q {
                push_char(&mut r, q);
                push_char(&mut r, q);
            } else {
                push_char(&mut r, c);
            }
            proof {
                let pre = identifier@.subrange(0, i as int);
                assert(identifier@.subrange(0, i + 1) =~= pre.push(c));
                lemma_escaped_push(pre, c, q);
                assert(r@ =~= seq![spec_quote_open(*self)] + spec_escaped(
                    identifier@.subrange(0, i + 1),
                    q,
                ));
            }
            i += 1;
        }
        push_char(&mut r, q);
        proof {
            assert(identifier@.subrange(0, identifier@.len() as int) =~= identifier@);
            assert(r@ =~= spec_format_identifier(*self, identifier@));
        }
        r
    }

    /// The DDL fragment for one column, per the dialect's type names and
    /// nullability support.
    pub fn get_col_def_str(&self, col_def: &ColDef) -> (r: String)
        ensures
            r@ == spec_col_def_str(*self, col_def@),
    {
        let mut r = self.format_identifier(col_def.name.as_str());
        proof {
            reveal_strlit(" ");
            assert(" "@ =~= seq![' ']);
        }
        r.append(" ");
        let type_str = match col_def.data_type {
            ColDataType::Text => self.get_text_type(),
            ColDataType::Number { decimal } => if decimal {
                self.get_decimal_type()
            } else {
                self.get_integer_type()
            },
            ColDataType::DateTime => self.get_datetime_type(),
        };
        r.append(type_str.as_str());
        if col_def.not_null && self.support_nullability() {
            proof {
                reveal_strlit(" NOT NULL");
                assert(" NOT NULL"@ =~= spec_not_null_suffix());
            }
            r.append(" NOT NULL");
        }
        proof {
            assert(r@ =~= spec_col_def_str(*self, col_def@));
        }
        r
    }

    /// The primary-key clause over the given columns, empty when unsupported
    /// or when no column is marked as a key member.
    pub fn get_primary_key_str(&self, col_defs: &Vec<ColDef>) -> (r: String)
        ensures
            r@ == spec_primary_key_str(*self, col_defs.deep_view()),
    {
        let mut names: Vec<String> = Vec::new();
        let mut i: usize = 0;
        while i < col_defs.len()
            invariant
                i <= col_defs.len(),
                names.deep_view() == spec_pk_names(*self, col_defs.deep_view().subrange(0, i as int)),
            decreases col_defs.len() - i,
        {
            if col_defs[i].primary_key {
                names.push(self.format_identifier(col_defs[i].name.as_str()));
            }
            proof {
                let cv = col_defs.deep_view();
                assert(cv.subrange(0, i + 1).drop_last() =~= cv.subrange(0, i as int));
                assert(cv.subrange(0, i + 1).last() == cv[i as int]);
                assert(names.deep_view() =~= spec_pk_names(*self, cv.subrange(0, i + 1)));
            }
            i += 1;
        }
        proof {
            assert(col_defs.deep_view().subrange(0, col_defs.len() as int) =~= col_defs.deep_view());
        }
        if !self.support_primary_key() || names.len() == 0 {
            String::new()
        } else {
            proof {
                reveal_strlit("PRIMARY KEY (");
                reveal_strlit(", ");
                reveal_strlit(")");
                assert("PRIMARY KEY ("@ =~= spec_pk_prefix());
                assert(", "@ =~= spec_comma_sep());
                assert(")"@ =~= seq![')']);
            }
            let mut r = String::from_str("PRIMARY KEY (");
            let joined = join_strings(&names, ", ");
            r.append(joined.as_str());
            r.append(")");
            proof {
                assert(r@ =~= spec_primary_key_str(*self, col_defs.deep_view()));
            }
            r
        }
    }
}

} // verus!
