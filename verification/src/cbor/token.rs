//! CBOR tokens and where they stand in the input.

use minicbor::data::Token as CborToken;
use vstd::prelude::*;

verus! {

/// A CBOR tag. The registered ones have a name.
#[derive(Clone, Copy, Debug, PartialEq, Eq, Structural)]
pub enum Tag {
    DateTime,
    Timestamp,
    PosBignum,
    NegBignum,
    Decimal,
    Bigfloat,
    ToBase64Url,
    ToBase64,
    ToBase16,
    Cbor,
    Uri,
    Base64Url,
    Base64,
    Regex,
    Mime,
    Unassigned(u64),
}

impl Tag {
    /// The tag that a number denotes.
    pub open spec fn spec_of_number(number: u64) -> Tag {
        match number {
            0 => Tag::DateTime,
            1 => Tag::Timestamp,
            2 => Tag::PosBignum,
            3 => Tag::NegBignum,
            4 => Tag::Decimal,
            5 => Tag::Bigfloat,
            21 => Tag::ToBase64Url,
            22 => Tag::ToBase64,
            23 => Tag::ToBase16,
            24 => Tag::Cbor,
            32 => Tag::Uri,
            33 => Tag::Base64Url,
            34 => Tag::Base64,
            35 => Tag::Regex,
            36 => Tag::Mime,
            _ => Tag::Unassigned(number),
        }
    }

    /// The tag that a number denotes.
    pub fn of_number(number: u64) -> (tag: Tag)
        ensures
            tag == Tag::spec_of_number(number),
    {
        match number {
            0 => Tag::DateTime,
            1 => Tag::Timestamp,
            2 => Tag::PosBignum,
            3 => Tag::NegBignum,
            4 => Tag::Decimal,
            5 => Tag::Bigfloat,
            21 => Tag::ToBase64Url,
            22 => Tag::ToBase64,
            23 => Tag::ToBase16,
            24 => Tag::Cbor,
            32 => Tag::Uri,
            33 => Tag::Base64Url,
            34 => Tag::Base64,
            35 => Tag::Regex,
            36 => Tag::Mime,
            _ => Tag::Unassigned(number),
        }
    }
}

/// One step of a CBOR encoding: a scalar, the start of a collection, or the
/// break that ends one of indefinite length. A floating-point number is given
/// by its IEEE 754 bits; a half-precision one is widened to single precision.
#[derive(Debug)]
pub enum Token {
    Bool(bool),
    U8(u8),
    U16(u16),
    U32(u32),
    U64(u64),
    I8(i8),
    I16(i16),
    I32(i32),
    I64(i64),
    Int(i128),
    F16(u32),
    F32(u32),
    F64(u64),
    Bytes(Vec<u8>),
    String(String),
    Array(u64),
    /// Start of a map of that many entries.
    MapOf(u64),
    Tag(Tag),
    Simple(u8),
    Break,
    Null,
    Undefined,
    /// Start of an indefinite byte string.
    BeginBytes,
    /// Start of an indefinite text string.
    BeginString,
    /// Start of an indefinite array.
    BeginArray,
    /// Start of an indefinite map.
    BeginMap,
}

/// A token, with its bytes and text taken by their views.
#[verifier::ext_equal]
pub enum TokenView {
    Bool(bool),
    U8(u8),
    U16(u16),
    U32(u32),
    U64(u64),
    I8(i8),
    I16(i16),
    I32(i32),
    I64(i64),
    Int(i128),
    F16(u32),
    F32(u32),
    F64(u64),
    Bytes(Seq<u8>),
    String(Seq<char>),
    Array(u64),
    /// Start of a map of that many entries.
    MapOf(u64),
    Tag(Tag),
    Simple(u8),
    Break,
    Null,
    Undefined,
    BeginBytes,
    BeginString,
    BeginArray,
    BeginMap,
}

impl View for Token {
    type V = TokenView;

    open spec fn view(&self) -> TokenView {
        match *self {
            Token::Bool(b) => TokenView::Bool(b),
            Token::U8(n) => TokenView::U8(n),
            Token::U16(n) => TokenView::U16(n),
            Token::U32(n) => TokenView::U32(n),
            Token::U64(n) => TokenView::U64(n),
            Token::I8(n) => TokenView::I8(n),
            Token::I16(n) => TokenView::I16(n),
            Token::I32(n) => TokenView::I32(n),
            Token::I64(n) => TokenView::I64(n),
            Token::Int(n) => TokenView::Int(n),
            Token::F16(bits) => TokenView::F16(bits),
            Token::F32(bits) => TokenView::F32(bits),
            Token::F64(bits) => TokenView::F64(bits),
            Token::Bytes(bytes) => TokenView::Bytes(bytes@),
            Token::String(text) => TokenView::String(text@),
            Token::Array(n) => TokenView::Array(n),
            Token::MapOf(n) => TokenView::MapOf(n),
            Token::Tag(tag) => TokenView::Tag(tag),
            Token::Simple(n) => TokenView::Simple(n),
            Token::Break => TokenView::Break,
            Token::Null => TokenView::Null,
            Token::Undefined => TokenView::Undefined,
            Token::BeginBytes => TokenView::BeginBytes,
            Token::BeginString => TokenView::BeginString,
            Token::BeginArray => TokenView::BeginArray,
            Token::BeginMap => TokenView::BeginMap,
        }
    }
}

impl TokenView {
    /// Whether the token is an integer.
    pub open spec fn is_integer(self) -> bool {
        match self {
            TokenView::U8(_) | TokenView::U16(_) | TokenView::U32(_) | TokenView::U64(_) => true,
            TokenView::I8(_) | TokenView::I16(_) | TokenView::I32(_) | TokenView::I64(_) => true,
            TokenView::Int(_) => true,
            _ => false,
        }
    }

    /// Whether the token is a floating-point number, a simple value or a break.
    pub open spec fn is_simple(self) -> bool {
        match self {
            TokenView::F16(_) | TokenView::F32(_) | TokenView::F64(_) => true,
            TokenView::Bool(_) | TokenView::Simple(_) => true,
            TokenView::Null | TokenView::Undefined | TokenView::Break => true,
            _ => false,
        }
    }

    /// Whether the token is a string, or starts an array, a map or a string of
    /// indefinite length.
    pub open spec fn is_compound(self) -> bool {
        match self {
            TokenView::Bytes(_) | TokenView::String(_) => true,
            TokenView::Array(_) | TokenView::MapOf(_) => true,
            TokenView::BeginBytes | TokenView::BeginString => true,
            TokenView::BeginArray | TokenView::BeginMap => true,
            _ => false,
        }
    }

    /// Whether the token starts a collection (map, array, tag, or indefinite
    /// string or bytes).
    pub open spec fn starts_collection(self) -> bool {
        match self {
            TokenView::BeginArray | TokenView::BeginMap => true,
            TokenView::Array(_) | TokenView::MapOf(_) | TokenView::Tag(_) => true,
            TokenView::BeginString | TokenView::BeginBytes => true,
            _ => false,
        }
    }
}

/// A token with the position of its encoding.
#[derive(Debug)]
pub struct ExtendedToken {
    pub token: Token,
    pub offset: usize,
    pub length: usize,
}

/// A token with its position, the token taken by its view.
#[verifier::ext_equal]
pub struct ExtendedTokenView {
    pub token: TokenView,
    pub offset: usize,
    pub length: usize,
}

impl View for ExtendedToken {
    type V = ExtendedTokenView;

    open spec fn view(&self) -> ExtendedTokenView {
        ExtendedTokenView { token: self.token@, offset: self.offset, length: self.length }
    }
}

/// What reading a token gives.
pub enum TokenRead {
    /// The input holds no further complete token.
    EndOfInput,
    /// The input is not CBOR here; the message describes the fault.
    Malformed(Seq<char>),
    /// A token, and the offset just behind its encoding.
    Token(TokenView, nat),
}

/// The token that the `minicbor` tokenizer reads in `data` at `offset`.
pub uninterp spec fn cbor_token(data: Seq<u8>, offset: nat) -> TokenRead;

/// The token at `offset`, if one stands there and `keep` holds of it.
pub open spec fn token_if(data: Seq<u8>, offset: nat, keep: spec_fn(TokenView) -> bool) -> Option<
    TokenView,
> {
    match cbor_token(data, offset) {
        TokenRead::Token(token, _) => if keep(token) {
            Some(token)
        } else {
            None
        },
        _ => None,
    }
}

/// A token that may be missing, taken by its view.
pub open spec fn token_view(token: Option<Token>) -> Option<TokenView> {
    match token {
        Some(token) => Some(token@),
        None => None,
    }
}

/// `minicbor::decode::Tokenizer::token` on the input from `offset` on: where the
/// token that `cbor_token` names ends. `Ok(None)` is an error of the kind "end
/// of input", `Err` holds the debug text of any other error. A token has at
/// least one byte and lies inside the input.
#[verifier::external_body]
fn token_end(data: &[u8], offset: usize) -> (end: Result<Option<usize>, String>)
    ensures
        match cbor_token(data@, offset as nat) {
            TokenRead::EndOfInput => end == Ok::<Option<usize>, String>(None),
            TokenRead::Malformed(message) => end matches Err(text) && text@ == message,
            TokenRead::Token(_, position) => {
                &&& end matches Ok(Some(found))
                &&& found == position
                &&& offset < position <= data@.len()
            },
        },
{
    let mut decoder = minicbor::Decoder::new(data);
    decoder.set_position(offset);
    match minicbor::decode::Tokenizer::from(&mut decoder).token() {
        Ok(_) => Ok(Some(decoder.position())),
        Err(error) if error.is_end_of_input() => Ok(None),
        Err(error) => Err(format!("{:?}", error)),
    }
}

/// `minicbor::decode::Tokenizer::token` on the input from `offset` on: the token
/// that `cbor_token` names, where it is an integer.
#[verifier::external_body]
fn integer_token(data: &[u8], offset: usize) -> (token: Option<Token>)
    ensures
        token_view(token) == token_if(data@, offset as nat, |t: TokenView| t.is_integer()),
{
    let mut decoder = minicbor::Decoder::new(data);
    decoder.set_position(offset);
    Some(match decoder.tokens().token().ok()? {
        CborToken::U8(n) => Token::U8(n),
        CborToken::U16(n) => Token::U16(n),
        CborToken::U32(n) => Token::U32(n),
        CborToken::U64(n) => Token::U64(n),
        CborToken::I8(n) => Token::I8(n),
        CborToken::I16(n) => Token::I16(n),
        CborToken::I32(n) => Token::I32(n),
        CborToken::I64(n) => Token::I64(n),
        CborToken::Int(n) => Token::Int(n.into()),
        _ => return None,
    })
}

/// `minicbor::decode::Tokenizer::token` on the input from `offset` on: the token
/// that `cbor_token` names, where it is a floating-point number, a simple value
/// or a break.
#[verifier::external_body]
fn simple_token(data: &[u8], offset: usize) -> (token: Option<Token>)
    ensures
        token_view(token) == token_if(data@, offset as nat, |t: TokenView| t.is_simple()),
{
    let mut decoder = minicbor::Decoder::new(data);
    decoder.set_position(offset);
    Some(match decoder.tokens().token().ok()? {
        CborToken::F16(n) => Token::F16(n.to_bits()),
        CborToken::F32(n) => Token::F32(n.to_bits()),
        CborToken::F64(n) => Token::F64(n.to_bits()),
        CborToken::Bool(b) => Token::Bool(b),
        CborToken::Simple(n) => Token::Simple(n),
        CborToken::Null => Token::Null,
        CborToken::Undefined => Token::Undefined,
        CborToken::Break => Token::Break,
        _ => return None,
    })
}

/// `minicbor::decode::Tokenizer::token` on the input from `offset` on: the token
/// that `cbor_token` names, where it is a string or starts an array, a map or a
/// string of indefinite length.
#[verifier::external_body]
fn compound_token(data: &[u8], offset: usize) -> (token: Option<Token>)
    ensures
        token_view(token) == token_if(data@, offset as nat, |t: TokenView| t.is_compound()),
{
    let mut decoder = minicbor::Decoder::new(data);
    decoder.set_position(offset);
    Some(match decoder.tokens().token().ok()? {
        CborToken::Bytes(bytes) => Token::Bytes(bytes.to_vec()),
        CborToken::String(text) => Token::String(text.to_string()),
        CborToken::Array(n) => Token::Array(n),
        CborToken::Map(n) => Token::MapOf(n),
        CborToken::BeginBytes => Token::BeginBytes,
        CborToken::BeginString => Token::BeginString,
        CborToken::BeginArray => Token::BeginArray,
        CborToken::BeginMap => Token::BeginMap,
        _ => return None,
    })
}

/// `minicbor::decode::Tokenizer::token` on the input from `offset` on: the number
/// of the tag, where the token that `cbor_token` names is one.
#[verifier::external_body]
fn tag_number(data: &[u8], offset: usize) -> (number: Option<u64>)
    ensures
        match number {
            Some(number) => token_if(data@, offset as nat, |t: TokenView| t is Tag) == Some(
                TokenView::Tag(Tag::spec_of_number(number)),
            ),
            None => token_if(data@, offset as nat, |t: TokenView| t is Tag) is None,
        },
{
    let mut decoder = minicbor::Decoder::new(data);
    decoder.set_position(offset);
    match decoder.tokens().token().ok()? {
        CborToken::Tag(tag) => Some(tag.as_u64()),
        _ => None,
    }
}

/// The token at `offset`, whatever its kind.
fn token_at(data: &[u8], offset: usize) -> (token: Token)
    requires
        cbor_token(data@, offset as nat) is Token,
    ensures
        cbor_token(data@, offset as nat) matches TokenRead::Token(found, _) && found == token@,
{
    if let Some(token) = integer_token(data, offset) {
        return token;
    }
    if let Some(token) = simple_token(data, offset) {
        return token;
    }
    if let Some(token) = compound_token(data, offset) {
        return token;
    }
    let number = tag_number(data, offset);
    Token::Tag(Tag::of_number(number.unwrap()))
}

/// The tokens of an input, one after the other.
#[derive(Debug)]
pub struct ExtendedTokenizer<'a> {
    data: &'a [u8],
    position: usize,
}

/// What a tokenizer hands out next.
pub enum NextToken {
    /// Nothing more.
    End,
    /// A fault in the input, with its description.
    Fault(Seq<char>),
    /// A token, and the offset at which to go on.
    Token(ExtendedTokenView, nat),
}

/// What a tokenizer of `data` hands out at `position`.
pub open spec fn next_token_spec(data: Seq<u8>, position: nat) -> NextToken {
    match cbor_token(data, position) {
        TokenRead::EndOfInput => NextToken::End,
        TokenRead::Malformed(message) => NextToken::Fault(message),
        TokenRead::Token(token, end) => NextToken::Token(
            ExtendedTokenView {
                token,
                offset: position as usize,
                length: (end - position) as usize,
            },
            end,
        ),
    }
}

impl<'a> ExtendedTokenizer<'a> {
    /// The input.
    pub closed spec fn input(self) -> Seq<u8> {
        self.data@
    }

    /// The offset of the next token.
    pub closed spec fn offset(self) -> nat {
        self.position as nat
    }

    /// Starts at the first byte of `data`.
    pub fn new(data: &'a [u8]) -> (tokenizer: Self)
        ensures
            tokenizer.input() == data@,
            tokenizer.offset() == 0,
    {
        ExtendedTokenizer { data, position: 0 }
    }

    /// The next token, with its position. `None` where the input holds no further
    /// complete token. After a fault, or at the end, the rest is given up.
    pub fn next(&mut self) -> (next: Option<Result<ExtendedToken, String>>)
        ensures
            final(self).input() == old(self).input(),
            match next_token_spec(old(self).input(), old(self).offset()) {
                NextToken::End => {
                    &&& next is None
                    &&& final(self).offset() == old(self).input().len()
                },
                NextToken::Fault(message) => {
                    &&& next matches Some(Err(text))
                    &&& text@ == message
                    &&& final(self).offset() == old(self).input().len()
                },
                NextToken::Token(token, end) => {
                    &&& next matches Some(Ok(found))
                    &&& found@ == token
                    &&& found.offset == old(self).offset()
                    &&& found.offset + found.length == end
                    &&& final(self).offset() == end
                    &&& old(self).offset() < end <= old(self).input().len()
                    &&& end <= usize::MAX
                },
            },
    {
        let offset = self.position;
        match token_end(self.data, offset) {
            Ok(Some(end)) => {
                self.position = end;
                Some(
                    Ok(
                        ExtendedToken {
                            token: token_at(self.data, offset),
                            offset,
                            length: end - offset,
                        },
                    ),
                )
            },
            Ok(None) => {
                self.position = self.data.len();
                None
            },
            Err(message) => {
                self.position = self.data.len();
                Some(Err(message))
            },
        }
    }
}

} // verus!
