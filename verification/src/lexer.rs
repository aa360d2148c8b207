//! The lexer: from source text, split into grapheme clusters, to the
//! sequence of tokens.

use vstd::prelude::*;
use unicode_segmentation::UnicodeSegmentation;
use crate::text::str_equals;

verus! {

/// The kinds of token. The nine type keywords share the kind `Type`.
#[derive(Debug, PartialEq, Eq, Clone, Copy, Structural)]
pub enum TokenType {
    IntLiteral,
    Plus,
    Minus,
    Star,
    Slash,
    ExclamationMark,
    Identifier,
    EqualSign,
    LeftParen,
    RightParen,
    LeftBrace,
    RightBrace,
    SemiColon,
    Colon,
    Comma,
    Var,
    If,
    Else,
    While,
    Function,
    Type,
    DoubleEqualSign,
    NotEqualSign,
    LessThan,
    GreaterThan,
    LessThanOrEqual,
    GreaterThanOrEqual,
}

/// A token: its kind, its text, and the 1-based line and column of its
/// first grapheme cluster.
#[derive(Debug, PartialEq, Eq)]
pub struct Token {
    pub token_type: TokenType,
    pub value: String,
    pub col: usize,
    pub line: usize,
}

/// The mathematical value of a `Token`.
pub struct TokenView {
    pub token_type: TokenType,
    pub value: Seq<char>,
    pub col: int,
    pub line: int,
}

impl View for Token {
    type V = TokenView;

    open spec fn view(&self) -> TokenView {
        TokenView {
            token_type: self.token_type,
            value: self.value@,
            col: self.col as int,
            line: self.line as int,
        }
    }
}

/// The views of a sequence of tokens.
pub open spec fn token_views(tokens: Seq<Token>) -> Seq<TokenView> {
    Seq::new(tokens.len(), |i: int| tokens[i]@)
}

/// A grapheme cluster with which no token can begin, and where it stands.
#[derive(Debug, PartialEq, Eq)]
pub struct LexError {
    pub line: usize,
    pub col: usize,
    pub character: String,
}

/// The mathematical value of a `LexError`.
pub struct LexErrorView {
    pub line: int,
    pub col: int,
    pub character: Seq<char>,
}

impl View for LexError {
    type V = LexErrorView;

    open spec fn view(&self) -> LexErrorView {
        LexErrorView { line: self.line as int, col: self.col as int, character: self.character@ }
    }
}

/// The extended grapheme clusters of a text, in order, as the Unicode text
/// segmentation rules delimit them.
pub uninterp spec fn grapheme_clusters(text: Seq<char>) -> Seq<Seq<char>>;

/// Whether a character has the Unicode property `Alphabetic`.
pub uninterp spec fn char_alphabetic(c: char) -> bool;

/// Whether a character has one of the Unicode general categories for
/// numbers.
pub uninterp spec fn char_numeric(c: char) -> bool;

/// Whether a character is one of the 52 ASCII letters.
pub open spec fn ascii_letter(c: char) -> bool {
    'a' <= c <= 'z' || 'A' <= c <= 'Z'
}

/// Whether a character is one of the ten ASCII digits.
pub open spec fn ascii_digit(c: char) -> bool {
    '0' <= c <= '9'
}

/// `char::is_alphabetic`: whether the character has the Unicode property
/// `Alphabetic`. Of the ASCII characters the Unicode Character Database
/// gives that property to the letters and to no other, and that much is
/// claimed here; of every other character nothing is claimed but that the
/// answer depends on the character alone.
pub assume_specification[ char::is_alphabetic ](c: char) -> (answer: bool)
    ensures
        answer == char_alphabetic(c),
        c <= '\u{7f}' ==> answer == ascii_letter(c),
;

/// `char::is_numeric`: whether the character has one of the Unicode general
/// categories for numbers (`Nd`, `Nl`, `No`). Of the ASCII characters the
/// Unicode Character Database puts the ten digits in such a category and
/// no other, and that much is claimed here; of every other character
/// nothing is claimed but that the answer depends on the character alone.
pub assume_specification[ char::is_numeric ](c: char) -> (answer: bool)
    ensures
        answer == char_numeric(c),
        c <= '\u{7f}' ==> answer == ascii_digit(c),
;

/// Whether a character is alphabetic: a letter, if it is an ASCII
/// character.
pub open spec fn alphabetic_char(c: char) -> bool {
    if c <= '\u{7f}' {
        ascii_letter(c)
    } else {
        char_alphabetic(c)
    }
}

/// Whether a character is numeric: a digit, if it is an ASCII character.
pub open spec fn numeric_char(c: char) -> bool {
    if c <= '\u{7f}' {
        ascii_digit(c)
    } else {
        char_numeric(c)
    }
}

/// The views of a sequence of string slices.
pub open spec fn grapheme_views(data: Seq<&str>) -> Seq<Seq<char>> {
    Seq::new(data.len(), |i: int| data[i]@)
}

/// `UnicodeSegmentation::graphemes` with extended clusters, collected: the
/// grapheme clusters of `input`, in order, each a slice of `input`.
#[verifier::external_body]
fn split_graphemes<'a>(input: &'a str) -> (data: Vec<&'a str>)
    ensures
        grapheme_views(data@) == grapheme_clusters(input@),
{
    UnicodeSegmentation::graphemes(input, true).collect()
}

/// Whether a cluster is a space or a tab.
pub open spec fn whitespace(g: Seq<char>) -> bool {
    g == " "@ || g == "\t"@
}

/// Whether a cluster is a line end: a line feed, alone or after a carriage
/// return.
pub open spec fn newline(g: Seq<char>) -> bool {
    g == "\r\n"@ || g == "\n"@
}

/// Whether every character of a cluster is alphabetic.
pub open spec fn alphabetic(g: Seq<char>) -> bool {
    forall|i: int| 0 <= i < g.len() ==> alphabetic_char(#[trigger] g[i])
}

/// Whether every character of a cluster is numeric.
pub open spec fn numeric(g: Seq<char>) -> bool {
    forall|i: int| 0 <= i < g.len() ==> numeric_char(#[trigger] g[i])
}

/// Whether a cluster is a space or a tab.
fn is_whitespace(string: &str) -> (r: bool)
    ensures
        r == whitespace(string@),
{
    str_equals(string, " ") || str_equals(string, "\t")
}

/// Whether a cluster is a line end.
fn is_newline(string: &str) -> (r: bool)
    ensures
        r == newline(string@),
{
    str_equals(string, "\r\n") || str_equals(string, "\n")
}

/// Whether every character of a cluster is alphabetic.
fn is_alphabetic(string: &str) -> (r: bool)
    ensures
        r == alphabetic(string@),
{
    let n = string.unicode_len();
    let mut i: usize = 0;
    while i < n
        invariant
            i <= n,
            n == string@.len(),
            forall|j: int| 0 <= j < i ==> alphabetic_char(#[trigger] string@[j]),
        decreases n - i,
    {
        if !string.get_char(i).is_alphabetic() {
            return false;
        }
        i += 1;
    }
    true
}

/// Whether every character of a cluster is numeric.
fn is_numeric(string: &str) -> (r: bool)
    ensures
        r == numeric(string@),
{
    let n = string.unicode_len();
    let mut i: usize = 0;
    while i < n
        invariant
            i <= n,
            n == string@.len(),
            forall|j: int| 0 <= j < i ==> numeric_char(#[trigger] string@[j]),
        decreases n - i,
    {
        if !string.get_char(i).is_numeric() {
            return false;
        }
        i += 1;
    }
    true
}

/// The kinds of grapheme cluster that the lexer consumes in runs.
#[derive(Debug, PartialEq, Eq, Clone, Copy, Structural)]
pub enum GraphemeClass {
    /// Spaces, tabs and line ends.
    Blank,
    /// Everything but a line end: the rest of a comment.
    CommentBody,
    /// Clusters made of numeric characters.
    Numeric,
    /// Clusters made of alphabetic characters, or of numeric ones.
    AlphaNumeric,
}

impl GraphemeClass {
    /// Whether the cluster `g` is of this class.
    pub open spec fn matches(self, g: Seq<char>) -> bool {
        match self {
            GraphemeClass::Blank => whitespace(g) || newline(g),
            GraphemeClass::CommentBody => !newline(g),
            GraphemeClass::Numeric => numeric(g),
            GraphemeClass::AlphaNumeric => alphabetic(g) || numeric(g),
        }
    }

    /// Whether the cluster `string` is of this class.
    fn accepts(self, string: &str) -> (r: bool)
        ensures
            r == self.matches(string@),
    {
        match self {
            GraphemeClass::Blank => is_whitespace(string) || is_newline(string),
            GraphemeClass::CommentBody => !is_newline(string),
            GraphemeClass::Numeric => is_numeric(string),
            GraphemeClass::AlphaNumeric => is_alphabetic(string) || is_numeric(string),
        }
    }
}

/// The number of line ends among the first `i` clusters: the 0-based line
/// on which cluster `i` stands.
pub open spec fn line_at(data: Seq<Seq<char>>, i: int) -> int
    decreases i,
{
    if i <= 0 || i > data.len() {
        0
    } else if newline(data[i - 1]) {
        line_at(data, i - 1) + 1
    } else {
        line_at(data, i - 1)
    }
}

/// The number of clusters between the last line end before cluster `i` and
/// cluster `i`: its 0-based column.
pub open spec fn column_at(data: Seq<Seq<char>>, i: int) -> int
    decreases i,
{
    if i <= 0 || i > data.len() {
        0
    } else if newline(data[i - 1]) {
        0
    } else {
        column_at(data, i - 1) + 1
    }
}

/// Lines and columns count clusters, so neither exceeds the index.
pub proof fn lemma_position_bounds(data: Seq<Seq<char>>, i: int)
    requires
        0 <= i,
    ensures
        0 <= line_at(data, i) <= i,
        0 <= column_at(data, i) <= i,
    decreases i,
{
    if 0 < i <= data.len() {
        lemma_position_bounds(data, i - 1);
    }
}

/// Where the run of clusters of class `class` that starts at `i` ends: the
/// first index from `i` on whose cluster is not of that class, or the end.
pub open spec fn run_end(data: Seq<Seq<char>>, class: GraphemeClass, i: int) -> int
    decreases data.len() - i,
{
    if 0 <= i < data.len() && class.matches(data[i]) {
        run_end(data, class, i + 1)
    } else {
        i
    }
}

/// A run ends at or after its start and within the text.
pub proof fn lemma_run_end_bounds(data: Seq<Seq<char>>, class: GraphemeClass, i: int)
    requires
        0 <= i <= data.len(),
    ensures
        i <= run_end(data, class, i) <= data.len(),
    decreases data.len() - i,
{
    if i < data.len() && class.matches(data[i]) {
        lemma_run_end_bounds(data, class, i + 1);
    }
}

/// The clusters from `from` up to `to`, joined.
pub open spec fn joined(data: Seq<Seq<char>>, from: int, to: int) -> Seq<char>
    decreases to - from,
{
    if to <= from || to > data.len() || from < 0 {
        Seq::empty()
    } else {
        joined(data, from, to - 1) + data[to - 1]
    }
}

/// The kind of a keyword; `None` for any other word.
pub open spec fn keyword_kind(word: Seq<char>) -> Option<TokenType> {
    if word == "if"@ {
        Some(TokenType::If)
    } else if word == "else"@ {
        Some(TokenType::Else)
    } else if word == "var"@ {
        Some(TokenType::Var)
    } else if word == "while"@ {
        Some(TokenType::While)
    } else if word == "fn"@ {
        Some(TokenType::Function)
    } else if word == "i8"@ || word == "i16"@ || word == "i32"@ || word == "i64"@ || word == "u8"@
        || word == "u16"@ || word == "u32"@ || word == "u64"@ || word == "bool"@ {
        Some(TokenType::Type)
    } else {
        None
    }
}

/// The kind of the token that a punctuation character makes by itself.
pub open spec fn punctuation_kind(c: char) -> Option<TokenType> {
    if c == '+' {
        Some(TokenType::Plus)
    } else if c == '-' {
        Some(TokenType::Minus)
    } else if c == '*' {
        Some(TokenType::Star)
    } else if c == '/' {
        Some(TokenType::Slash)
    } else if c == '(' {
        Some(TokenType::LeftParen)
    } else if c == ')' {
        Some(TokenType::RightParen)
    } else if c == '{' {
        Some(TokenType::LeftBrace)
    } else if c == '}' {
        Some(TokenType::RightBrace)
    } else if c == ';' {
        Some(TokenType::SemiColon)
    } else if c == ':' {
        Some(TokenType::Colon)
    } else if c == ',' {
        Some(TokenType::Comma)
    } else {
        None
    }
}

/// For a character that makes one token alone and another when `=`
/// follows: the two kinds, the single one first.
pub open spec fn compound_kinds(c: char) -> Option<(TokenType, TokenType)> {
    if c == '!' {
        Some((TokenType::ExclamationMark, TokenType::NotEqualSign))
    } else if c == '=' {
        Some((TokenType::EqualSign, TokenType::DoubleEqualSign))
    } else if c == '<' {
        Some((TokenType::LessThan, TokenType::LessThanOrEqual))
    } else if c == '>' {
        Some((TokenType::GreaterThan, TokenType::GreaterThanOrEqual))
    } else {
        None
    }
}

/// The token of kind `token_type` and text `value` that begins at cluster
/// `i`.
pub open spec fn token_at_position(
    data: Seq<Seq<char>>,
    i: int,
    token_type: TokenType,
    value: Seq<char>,
) -> TokenView {
    TokenView { token_type, value, col: column_at(data, i) + 1, line: line_at(data, i) + 1 }
}

/// The token that begins at cluster `i`, and the index of the cluster after
/// it; `None` where no token can begin.
///
/// The first character of the cluster decides. An ASCII digit begins an
/// integer literal, which runs on over numeric clusters. An ASCII letter
/// begins a word, which runs on over alphabetic and numeric clusters and is
/// a keyword or an identifier. A punctuation character is a token by
/// itself. One of `! = < >` makes a two-cluster token with a following `=`
/// and a token by itself otherwise.
pub open spec fn scan_token(data: Seq<Seq<char>>, i: int) -> Option<(TokenView, int)>
    recommends
        0 <= i < data.len(),
{
    let g = data[i];
    if g.len() == 0 {
        None
    } else if '0' <= g[0] <= '9' {
        let end = run_end(data, GraphemeClass::Numeric, i);
        if end == i {
            None
        } else {
            Some((token_at_position(data, i, TokenType::IntLiteral, joined(data, i, end)), end))
        }
    } else if 'a' <= g[0] <= 'z' || 'A' <= g[0] <= 'Z' {
        let end = run_end(data, GraphemeClass::AlphaNumeric, i);
        let word = joined(data, i, end);
        if end == i {
            None
        } else {
            Some(
                (
                    token_at_position(
                        data,
                        i,
                        match keyword_kind(word) {
                            Some(kind) => kind,
                            None => TokenType::Identifier,
                        },
                        word,
                    ),
                    end,
                ),
            )
        }
    } else if punctuation_kind(g[0]) is Some {
        Some((token_at_position(data, i, punctuation_kind(g[0])->Some_0, g), i + 1))
    } else if compound_kinds(g[0]) is Some {
        if i + 1 < data.len() && data[i + 1] == "="@ {
            Some(
                (
                    token_at_position(data, i, compound_kinds(g[0])->Some_0.1, g + data[i + 1]),
                    i + 2,
                ),
            )
        } else {
            Some((token_at_position(data, i, compound_kinds(g[0])->Some_0.0, g), i + 1))
        }
    } else {
        None
    }
}

/// A token ends after its start and within the text.
pub proof fn lemma_scan_token_advances(data: Seq<Seq<char>>, i: int)
    requires
        0 <= i < data.len(),
    ensures
        scan_token(data, i) matches Some((_, next)) ==> i < next <= data.len(),
{
    lemma_run_end_bounds(data, GraphemeClass::Numeric, i);
    lemma_run_end_bounds(data, GraphemeClass::AlphaNumeric, i);
}

/// The tokens of the text from cluster `i` on, or the index of the first
/// cluster with which no token can begin.
///
/// Blank clusters between tokens are skipped, and so is everything from a
/// `#` to the end of its line.
pub open spec fn tokens_from(data: Seq<Seq<char>>, i: int) -> Result<Seq<TokenView>, int>
    decreases data.len() - i, 1int,
{
    if i < 0 || i >= data.len() {
        Ok(Seq::empty())
    } else if GraphemeClass::Blank.matches(data[i]) {
        tokens_from(data, i + 1)
    } else if data[i] == "#"@ {
        tokens_after_comment(data, i + 1)
    } else {
        match scan_token(data, i) {
            None => Err(i),
            Some((token, next)) => {
                if i < next <= data.len() {
                    match tokens_from(data, next) {
                        Ok(rest) => Ok(seq![token] + rest),
                        Err(at) => Err(at),
                    }
                } else {
                    Err(i)
                }
            },
        }
    }
}

/// The tokens of the text from cluster `i` on, where cluster `i` stands
/// inside a comment.
pub open spec fn tokens_after_comment(data: Seq<Seq<char>>, i: int) -> Result<Seq<TokenView>, int>
    decreases data.len() - i, 0int,
{
    if i < 0 || i >= data.len() {
        Ok(Seq::empty())
    } else if newline(data[i]) {
        tokens_from(data, i + 1)
    } else {
        tokens_after_comment(data, i + 1)
    }
}

/// Blank clusters before a token change nothing.
pub proof fn lemma_blanks_are_skipped(data: Seq<Seq<char>>, i: int)
    requires
        0 <= i <= data.len(),
    ensures
        tokens_from(data, i) == tokens_from(data, run_end(data, GraphemeClass::Blank, i)),
    decreases data.len() - i,
{
    if i < data.len() && GraphemeClass::Blank.matches(data[i]) {
        lemma_blanks_are_skipped(data, i + 1);
    }
}

/// Inside a comment everything up to the line end changes nothing.
pub proof fn lemma_comments_are_skipped(data: Seq<Seq<char>>, i: int)
    requires
        0 <= i <= data.len(),
    ensures
        tokens_after_comment(data, i) == tokens_from(
            data,
            run_end(data, GraphemeClass::CommentBody, i),
        ),
    decreases data.len() - i,
{
    if i < data.len() && !newline(data[i]) {
        lemma_comments_are_skipped(data, i + 1);
    }
}

/// Where a run ends, the text ends or the cluster is not of the class.
pub proof fn lemma_run_end_stops(data: Seq<Seq<char>>, class: GraphemeClass, i: int)
    requires
        0 <= i <= data.len(),
    ensures
        ({
            let end = run_end(data, class, i);
            end == data.len() || !class.matches(data[end])
        }),
    decreases data.len() - i,
{
    if i < data.len() && class.matches(data[i]) {
        lemma_run_end_stops(data, class, i + 1);
    }
}

/// The error that reports cluster `i`.
pub open spec fn error_at(data: Seq<Seq<char>>, i: int) -> LexErrorView {
    LexErrorView { line: line_at(data, i) + 1, col: column_at(data, i) + 1, character: data[i] }
}

/// The tokens of a text, or the error that reports the first grapheme
/// cluster with which no token can begin. The result is a function of the
/// text alone.
pub open spec fn tokens_of(text: Seq<char>) -> Result<Seq<TokenView>, LexErrorView> {
    let data = grapheme_clusters(text);
    match tokens_from(data, 0) {
        Ok(tokens) => Ok(tokens),
        Err(at) => Err(error_at(data, at)),
    }
}

/// A lexer over the grapheme clusters of a source text.
pub struct Lexer<'a> {
    data: Vec<&'a str>,
    index: usize,
    current_col: usize,
    current_line: usize,
}

impl<'a> Lexer<'a> {
    /// The grapheme clusters of the text that is being read.
    pub closed spec fn graphemes(&self) -> Seq<Seq<char>> {
        grapheme_views(self.data@)
    }

    /// The index of the next cluster to read.
    pub closed spec fn position(&self) -> int {
        self.index as int
    }

    /// The lexer stands within its text and knows the line and the column
    /// at which it stands.
    pub closed spec fn wf(&self) -> bool {
        &&& self.index <= self.data.len()
        &&& self.current_col == column_at(self.graphemes(), self.index as int)
        &&& self.current_line == line_at(self.graphemes(), self.index as int)
    }

    /// A lexer at the start of `input`, over its grapheme clusters.
    pub fn new(input: &'a str) -> (lexer: Self)
        ensures
            lexer.wf(),
            lexer.position() == 0,
            lexer.graphemes() == grapheme_clusters(input@),
    {
        Self::from_clusters(split_graphemes(input))
    }

    /// A lexer at the start of a text that is given cluster by cluster.
    pub fn from_clusters(data: Vec<&'a str>) -> (lexer: Self)
        ensures
            lexer.wf(),
            lexer.position() == 0,
            lexer.graphemes() == grapheme_views(data@),
    {
        Lexer { data, index: 0, current_col: 0, current_line: 0 }
    }

    /// Whether every cluster has been read.
    fn eof(&self) -> (r: bool)
        ensures
            r == (self.index >= self.data.len()),
    {
        self.index >= self.data.len()
    }

    /// The cluster `index` places after the next one to read.
    fn peek(&self, index: usize) -> (g: &'a str)
        requires
            self.index + index < self.data.len(),
        ensures
            g@ == self.graphemes()[self.index + index],
    {
        self.data[self.index + index]
    }

    /// Reads one cluster, and keeps count of lines and columns.
    fn consume(&mut self) -> (g: &'a str)
        requires
            old(self).wf(),
            old(self).index < old(self).data.len(),
        ensures
            final(self).wf(),
            final(self).data == old(self).data,
            final(self).index == old(self).index + 1,
            g@ == old(self).graphemes()[old(self).index as int],
    {
        let result = self.data[self.index];
        proof {
            lemma_position_bounds(self.graphemes(), self.index as int);
        }
        self.index += 1;
        self.current_col += 1;
        if is_newline(result) {
            self.current_col = 0;
            self.current_line += 1;
        }
        result
    }

    /// Reads the run of clusters of class `class` that begins here, and
    /// gives its text.
    fn consume_while(&mut self, class: GraphemeClass) -> (run: String)
        requires
            old(self).wf(),
        ensures
            final(self).wf(),
            final(self).data == old(self).data,
            final(self).index == run_end(old(self).graphemes(), class, old(self).index as int),
            old(self).index <= final(self).index,
            run@ == joined(old(self).graphemes(), old(self).index as int, final(self).index as int),
    {
        let mut result = String::new();
        let ghost data = self.graphemes();
        let ghost start = self.index as int;
        loop
            invariant
                self.wf(),
                self.data == old(self).data,
                data == self.graphemes(),
                start == old(self).index,
                start <= self.index <= self.data.len(),
                run_end(data, class, start) == run_end(data, class, self.index as int),
                result@ == joined(data, start, self.index as int),
            ensures
                self.wf(),
                self.data == old(self).data,
                start <= self.index <= self.data.len(),
                run_end(data, class, start) == self.index,
                result@ == joined(data, start, self.index as int),
            decreases self.data.len() - self.index,
        {
            if self.eof() {
                break ;
            }
            let c = self.peek(0);
            if !class.accepts(c) {
                break ;
            }
            result.append(self.consume());
        }
        result
    }

    /// Reads past the blank clusters that begin here.
    fn skip_whitespace(&mut self)
        requires
            old(self).wf(),
        ensures
            final(self).wf(),
            final(self).data == old(self).data,
            final(self).index == run_end(
                old(self).graphemes(),
                GraphemeClass::Blank,
                old(self).index as int,
            ),
            old(self).index <= final(self).index,
    {
        self.consume_while(GraphemeClass::Blank);
    }

    /// The token of kind `token_type` that the next cluster is by itself.
    fn tokenize_single_char(&mut self, token_type: TokenType) -> (token: Token)
        requires
            old(self).wf(),
            old(self).index < old(self).data.len(),
        ensures
            final(self).wf(),
            final(self).data == old(self).data,
            final(self).index == old(self).index + 1,
            token@ == token_at_position(
                old(self).graphemes(),
                old(self).index as int,
                token_type,
                old(self).graphemes()[old(self).index as int],
            ),
    {
        proof {
            lemma_position_bounds(self.graphemes(), self.index as int);
        }
        let line = self.current_line + 1;
        let col = self.current_col + 1;
        let value = String::from_str(self.consume());
        Token { line, col, token_type, value }
    }

    /// The token of kind `token_type` that the run of clusters of class
    /// `class` makes.
    fn tokenize_multichar(&mut self, class: GraphemeClass, token_type: TokenType) -> (token: Token)
        requires
            old(self).wf(),
            old(self).index < old(self).data.len(),
        ensures
            final(self).wf(),
            final(self).data == old(self).data,
            final(self).index == run_end(old(self).graphemes(), class, old(self).index as int),
            old(self).index <= final(self).index,
            token@ == token_at_position(
                old(self).graphemes(),
                old(self).index as int,
                token_type,
                joined(old(self).graphemes(), old(self).index as int, final(self).index as int),
            ),
    {
        proof {
            lemma_position_bounds(self.graphemes(), self.index as int);
        }
        let line = self.current_line + 1;
        let col = self.current_col + 1;
        let value = self.consume_while(class);
        Token { line, col, token_type, value }
    }

    /// The kind of a keyword; `None` for any other word.
    fn keyword_to_tokentype(keyword: &str) -> (kind: Option<TokenType>)
        ensures
            kind == keyword_kind(keyword@),
    {
        if str_equals(keyword, "if") {
            Some(TokenType::If)
        } else if str_equals(keyword, "else") {
            Some(TokenType::Else)
        } else if str_equals(keyword, "var") {
            Some(TokenType::Var)
        } else if str_equals(keyword, "while") {
            Some(TokenType::While)
        } else if str_equals(keyword, "fn") {
            Some(TokenType::Function)
        } else if str_equals(keyword, "i8") || str_equals(keyword, "i16") || str_equals(
            keyword,
            "i32",
        ) || str_equals(keyword, "i64") || str_equals(keyword, "u8") || str_equals(keyword, "u16")
            || str_equals(keyword, "u32") || str_equals(keyword, "u64") || str_equals(
            keyword,
            "bool",
        ) {
            Some(TokenType::Type)
        } else {
            None
        }
    }

    /// The word that begins here: a keyword or an identifier.
    fn tokenize_possible_keyword(&mut self) -> (token: Token)
        requires
            old(self).wf(),
            old(self).index < old(self).data.len(),
        ensures
            final(self).wf(),
            final(self).data == old(self).data,
            final(self).index == run_end(
                old(self).graphemes(),
                GraphemeClass::AlphaNumeric,
                old(self).index as int,
            ),
            old(self).index <= final(self).index,
            token@ == ({
                let word = joined(
                    old(self).graphemes(),
                    old(self).index as int,
                    final(self).index as int,
                );
                token_at_position(
                    old(self).graphemes(),
                    old(self).index as int,
                    match keyword_kind(word) {
                        Some(kind) => kind,
                        None => TokenType::Identifier,
                    },
                    word,
                )
            }),
    {
        proof {
            lemma_position_bounds(self.graphemes(), self.index as int);
        }
        let line = self.current_line + 1;
        let col = self.current_col + 1;
        let value = self.consume_while(GraphemeClass::AlphaNumeric);
        let token_type = match Self::keyword_to_tokentype(value.as_str()) {
            Some(kind) => kind,
            None => TokenType::Identifier,
        };
        Token { line, col, token_type, value }
    }

    /// The token that the next cluster makes with a following `next_char`,
    /// of kind `multiple_type`, or by itself, of kind `single_type`.
    fn tokenize_possible_multichar(
        &mut self,
        single_type: TokenType,
        multiple_type: TokenType,
        next_char: &str,
    ) -> (token: Token)
        requires
            old(self).wf(),
            old(self).index < old(self).data.len(),
        ensures
            final(self).wf(),
            final(self).data == old(self).data,
            ({
                let data = old(self).graphemes();
                let i = old(self).index as int;
                if i + 1 < data.len() && data[i + 1] == next_char@ {
                    &&& final(self).index == i + 2
                    &&& token@ == token_at_position(data, i, multiple_type, data[i] + data[i + 1])
                } else {
                    &&& final(self).index == i + 1
                    &&& token@ == token_at_position(data, i, single_type, data[i])
                }
            }),
    {
        proof {
            lemma_position_bounds(self.graphemes(), self.index as int);
        }
        let line = self.current_line + 1;
        let col = self.current_col + 1;
        let mut value = String::from_str(self.consume());
        let mut token_type = single_type;
        if !self.eof() && str_equals(self.peek(0), next_char) {
            value.append(self.consume());
            token_type = multiple_type;
        }
        Token { line, col, token_type, value }
    }

    /// The token that begins at the cluster where the lexer stands, which
    /// is neither blank nor the start of a comment; the lexer moves past
    /// it. `None`, and the lexer stays, where no token can begin.
    fn next_token(&mut self) -> (token: Option<Token>)
        requires
            old(self).wf(),
            old(self).index < old(self).data.len(),
        ensures
            final(self).wf(),
            final(self).data == old(self).data,
            match scan_token(old(self).graphemes(), old(self).index as int) {
                Some((view, next)) => token is Some && token->Some_0@ == view && final(self).index
                    == next,
                None => token is None && final(self).index == old(self).index,
            },
    {
        let current = self.peek(0);
        if current.unicode_len() == 0 {
            return None;
        }
        let c = current.get_char(0);
        let start = self.index;
        if c >= '0' && c <= '9' {
            let token = self.tokenize_multichar(GraphemeClass::Numeric, TokenType::IntLiteral);
            if self.index == start {
                None
            } else {
                Some(token)
            }
        } else if (c >= 'a' && c <= 'z') || (c >= 'A' && c <= 'Z') {
            let token = self.tokenize_possible_keyword();
            if self.index == start {
                None
            } else {
                Some(token)
            }
        } else if c == '+' {
            Some(self.tokenize_single_char(TokenType::Plus))
        } else if c == '-' {
            Some(self.tokenize_single_char(TokenType::Minus))
        } else if c == '*' {
            Some(self.tokenize_single_char(TokenType::Star))
        } else if c == '/' {
            Some(self.tokenize_single_char(TokenType::Slash))
        } else if c == '(' {
            Some(self.tokenize_single_char(TokenType::LeftParen))
        } else if c == ')' {
            Some(self.tokenize_single_char(TokenType::RightParen))
        } else if c == '{' {
            Some(self.tokenize_single_char(TokenType::LeftBrace))
        } else if c == '}' {
            Some(self.tokenize_single_char(TokenType::RightBrace))
        } else if c == ';' {
            Some(self.tokenize_single_char(TokenType::SemiColon))
        } else if c == ':' {
            Some(self.tokenize_single_char(TokenType::Colon))
        } else if c == ',' {
            Some(self.tokenize_single_char(TokenType::Comma))
        } else if c == '!' {
            Some(
                self.tokenize_possible_multichar(
                    TokenType::ExclamationMark,
                    TokenType::NotEqualSign,
                    "=",
                ),
            )
        } else if c == '=' {
            Some(
                self.tokenize_possible_multichar(
                    TokenType::EqualSign,
                    TokenType::DoubleEqualSign,
                    "=",
                ),
            )
        } else if c == '<' {
            Some(
                self.tokenize_possible_multichar(
                    TokenType::LessThan,
                    TokenType::LessThanOrEqual,
                    "=",
                ),
            )
        } else if c == '>' {
            Some(
                self.tokenize_possible_multichar(
                    TokenType::GreaterThan,
                    TokenType::GreaterThanOrEqual,
                    "=",
                ),
            )
        } else {
            None
        }
    }

    /// Reads the rest of the text into tokens. On success the lexer stands
    /// at the end of the text; on failure it stands at the grapheme cluster
    /// that the error reports.
    pub fn tokenize(&mut self) -> (result: Result<Vec<Token>, LexError>)
        requires
            old(self).wf(),
        ensures
            final(self).wf(),
            final(self).graphemes() == old(self).graphemes(),
            match tokens_from(old(self).graphemes(), old(self).position()) {
                Ok(tokens) => {
                    &&& result is Ok
                    &&& token_views(result->Ok_0@) == tokens
                    &&& final(self).position() == old(self).graphemes().len()
                },
                Err(at) => {
                    &&& result is Err
                    &&& result->Err_0@ == error_at(old(self).graphemes(), at)
                    &&& final(self).position() == at
                },
            },
    {
        let mut result: Vec<Token> = Vec::new();
        let ghost data = self.graphemes();
        let ghost goal = tokens_from(data, self.index as int);
        while !self.eof()
            invariant
                self.wf(),
                self.data == old(self).data,
                data == self.graphemes(),
                self.index <= self.data.len(),
                goal == tokens_from(old(self).graphemes(), old(self).position()),
                goal == match tokens_from(data, self.index as int) {
                    Ok(rest) => Ok::<Seq<TokenView>, int>(token_views(result@) + rest),
                    Err(at) => Err(at),
                },
            ensures
                self.index >= self.data.len(),
            decreases self.data.len() - self.index,
        {
            proof {
                lemma_blanks_are_skipped(data, self.index as int);
            }
            let ghost entry = self.index;
            self.skip_whitespace();
            if self.eof() {
                break ;
            }
            let current = self.peek(0);
            proof {
                lemma_run_end_stops(data, GraphemeClass::Blank, entry as int);
            }
            if str_equals(current, "#") {
                proof {
                    lemma_comments_are_skipped(data, self.index + 1);
                    lemma_run_end_bounds(data, GraphemeClass::CommentBody, self.index + 1);
                }
                self.consume_while(GraphemeClass::CommentBody);
            } else {
                proof {
                    lemma_position_bounds(data, self.index as int);
                    lemma_scan_token_advances(data, self.index as int);
                }
                let line = self.current_line + 1;
                let col = self.current_col + 1;
                match self.next_token() {
                    Some(token) => {
                        let ghost before = result@;
                        result.push(token);
                        proof {
                            let rest = tokens_from(data, self.index as int);
                            if rest is Ok {
                                assert(token_views(before) + (seq![token@] + rest->Ok_0)
                                    =~= token_views(result@) + rest->Ok_0);
                            }
                        }
                    },
                    None => {
                        return Err(LexError { line, col, character: String::from_str(current) });
                    },
                }
            }
        }
        Ok(result)
    }
}

} // verus!
