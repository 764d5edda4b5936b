use vstd::prelude::*;
use vstd::slice::{slice_subrange, slice_to_vec};
use crate::error::DecodeError;
use crate::util::{be16_of, read_u16};

verus! {

/// The byte that joins and terminates decoded labels: an ASCII dot.
pub const LABEL_SEPARATOR: u8 = 46;

/// One question of a DNS message: a domain name as length-prefixed labels
/// joined by dots (with a trailing dot), then a 16-bit query type and a
/// 16-bit query class.
pub struct DNSQueryRequest {
    pub name: Vec<u8>,
    pub query_type: u16,
    pub query_class: u16,
}

/// The mathematical content of a [`DNSQueryRequest`].
pub struct DNSQueryRequestView {
    pub name: Seq<u8>,
    pub query_type: u16,
    pub query_class: u16,
}

impl View for DNSQueryRequest {
    type V = DNSQueryRequestView;

    open spec fn view(&self) -> DNSQueryRequestView {
        DNSQueryRequestView {
            name: self.name@,
            query_type: self.query_type,
            query_class: self.query_class,
        }
    }
}

/// A DNS message header and its question section. Answer, authority and
/// additional records are not decoded.
pub struct DNSQuery {
    pub id: u16,
    pub flags: u16,
    pub questions: u16,
    pub answers: u16,
    pub authority_rr: u16,
    pub additional_rr: u16,
    pub query_requests: Vec<DNSQueryRequest>,
}

/// The mathematical content of a [`DNSQuery`].
pub struct DNSQueryView {
    pub id: u16,
    pub flags: u16,
    pub questions: u16,
    pub answers: u16,
    pub authority_rr: u16,
    pub additional_rr: u16,
    pub query_requests: Seq<DNSQueryRequestView>,
}

/// The views of a sequence of decoded questions.
pub open spec fn question_views(qs: Seq<DNSQueryRequest>) -> Seq<DNSQueryRequestView> {
    qs.map_values(|q: DNSQueryRequest| q@)
}

impl View for DNSQuery {
    type V = DNSQueryView;

    open spec fn view(&self) -> DNSQueryView {
        DNSQueryView {
            id: self.id,
            flags: self.flags,
            questions: self.questions,
            answers: self.answers,
            authority_rr: self.authority_rr,
            additional_rr: self.additional_rr,
            query_requests: question_views(self.query_requests@),
        }
    }
}

/// What parsing a domain name at cursor `pos` yields: the labels joined
/// and terminated by dots, and the cursor just past the zero length byte
/// that ends the name. A cursor at or past the end of the buffer, or a
/// label that would run past it, yields `TruncatedInput`; a length byte
/// with the top two bits set is a name-compression pointer and yields
/// `UnsupportedCompression`; any other length byte above 63 yields
/// `MalformedLabel`.
pub open spec fn spec_parse_name(data: Seq<u8>, pos: int) -> Result<(Seq<u8>, int), DecodeError>
    decreases data.len() - pos,
{
    if pos < 0 || pos >= data.len() {
        Err(DecodeError::TruncatedInput)
    } else {
        let l = data[pos];
        if l == 0 {
            Ok((Seq::empty(), pos + 1))
        } else if l & 0xC0 == 0xC0 {
            Err(DecodeError::UnsupportedCompression)
        } else if l > 63 {
            Err(DecodeError::MalformedLabel)
        } else if pos + 1 + l > data.len() {
            Err(DecodeError::TruncatedInput)
        } else {
            match spec_parse_name(data, pos + 1 + l) {
                Ok((rest, end)) => Ok(
                    (data.subrange(pos + 1, pos + 1 + l) + seq![LABEL_SEPARATOR] + rest, end),
                ),
                Err(e) => Err(e),
            }
        }
    }
}

/// Parses one domain name, walking the cursor over its length-prefixed
/// labels until the zero length byte that terminates it.
fn parse_name(data: &[u8], pos: usize) -> (r: Result<(Vec<u8>, usize), DecodeError>)
    ensures
        match r {
            Ok((name, end)) => spec_parse_name(data@, pos as int) == Ok::<
                (Seq<u8>, int),
                DecodeError,
            >((name@, end as int)) && pos < end <= data@.len(),
            Err(e) => spec_parse_name(data@, pos as int) == Err::<(Seq<u8>, int), DecodeError>(e),
        },
    decreases data@.len() - pos,
{
    if pos >= data.len() {
        return Err(DecodeError::TruncatedInput);
    }
    let l = data[pos];
    if l == 0 {
        return Ok((Vec::new(), pos + 1));
    }
    if l & 0xC0 == 0xC0 {
        return Err(DecodeError::UnsupportedCompression);
    }
    if l > 63 {
        return Err(DecodeError::MalformedLabel);
    }
    if l as usize > data.len() - (pos + 1) {
        return Err(DecodeError::TruncatedInput);
    }
    let next = pos + 1 + l as usize;
    match parse_name(data, next) {
        Ok((mut rest, end)) => {
            let mut name = slice_to_vec(slice_subrange(data, pos + 1, next));
            name.push(LABEL_SEPARATOR);
            let ghost rest0 = rest@;
            name.append(&mut rest);
            proof {
                assert(name@ =~= data@.subrange(pos as int + 1, next as int)
                    + seq![LABEL_SEPARATOR] + rest0);
            }
            Ok((name, end))
        },
        Err(e) => Err(e),
    }
}

/// What parsing one question at cursor `pos` yields: the domain name, the
/// query type and class from the four bytes just past it, and the cursor
/// past those four bytes.
pub open spec fn spec_parse_question(data: Seq<u8>, pos: int) -> Result<
    (DNSQueryRequestView, int),
    DecodeError,
> {
    match spec_parse_name(data, pos) {
        Ok((name, after_name)) => {
            if after_name + 4 > data.len() {
                Err(DecodeError::TruncatedInput)
            } else {
                Ok(
                    (
                        DNSQueryRequestView {
                            name,
                            query_type: be16_of(data, after_name),
                            query_class: be16_of(data, after_name + 2),
                        },
                        after_name + 4,
                    ),
                )
            }
        },
        Err(e) => Err(e),
    }
}

impl DNSQueryRequest {
    /// Decodes one question at cursor `pos`, returning it together with
    /// the cursor where the next question starts.
    pub fn decode(data: &[u8], pos: usize) -> (r: Result<(DNSQueryRequest, usize), DecodeError>)
        ensures
            match r {
                Ok((q, end)) => spec_parse_question(data@, pos as int) == Ok::<
                    (DNSQueryRequestView, int),
                    DecodeError,
                >((q@, end as int)) && end <= data@.len(),
                Err(e) => spec_parse_question(data@, pos as int) == Err::<
                    (DNSQueryRequestView, int),
                    DecodeError,
                >(e),
            },
    {
        let (name, after_name) = match parse_name(data, pos) {
            Ok(v) => v,
            Err(e) => {
                return Err(e);
            },
        };
        if data.len() - after_name < 4 {
            return Err(DecodeError::TruncatedInput);
        }
        let query_type = match read_u16(data, after_name) {
            Ok(v) => v,
            Err(e) => {
                return Err(e);
            },
        };
        let query_class = match read_u16(data, after_name + 2) {
            Ok(v) => v,
            Err(e) => {
                return Err(e);
            },
        };
        Ok((DNSQueryRequest { name, query_type, query_class }, after_name + 4))
    }
}

/// What parsing `count` questions in sequence from cursor `pos` yields:
/// each question's end cursor is the next question's start.
pub open spec fn spec_parse_questions(data: Seq<u8>, pos: int, count: int) -> Result<
    (Seq<DNSQueryRequestView>, int),
    DecodeError,
>
    decreases count,
{
    if count <= 0 {
        Ok((Seq::empty(), pos))
    } else {
        match spec_parse_question(data, pos) {
            Ok((q, after)) => match spec_parse_questions(data, after, count - 1) {
                Ok((qs, end)) => Ok((seq![q] + qs, end)),
                Err(e) => Err(e),
            },
            Err(e) => Err(e),
        }
    }
}

/// What decoding `data` as a DNS message yields: the six 16-bit header
/// fields from bytes 0..12, then exactly as many questions as the count
/// at bytes 4..6 declares, parsed from cursor 12 on; or `TruncatedInput`
/// on a buffer shorter than the twelve-byte header.
pub open spec fn spec_decode_dns(data: Seq<u8>) -> Result<DNSQueryView, DecodeError> {
    if data.len() < 12 {
        Err(DecodeError::TruncatedInput)
    } else {
        match spec_parse_questions(data, 12, be16_of(data, 4) as int) {
            Ok((qs, _end)) => Ok(DNSQueryView {
                id: be16_of(data, 0),
                flags: be16_of(data, 2),
                questions: be16_of(data, 4),
                answers: be16_of(data, 6),
                authority_rr: be16_of(data, 8),
                additional_rr: be16_of(data, 10),
                query_requests: qs,
            }),
            Err(e) => Err(e),
        }
    }
}

impl DNSQuery {
    /// Decodes a slice beginning at a DNS message, reading its question
    /// section with a cursor threaded from one question to the next.
    pub fn decode(data: &[u8]) -> (r: Result<DNSQuery, DecodeError>)
        ensures
            match r {
                Ok(q) => spec_decode_dns(data@) == Ok::<DNSQueryView, DecodeError>(q@),
                Err(e) => spec_decode_dns(data@) == Err::<DNSQueryView, DecodeError>(e),
            },
    {
        if data.len() < 12 {
            return Err(DecodeError::TruncatedInput);
        }
        let id = match read_u16(data, 0) {
            Ok(v) => v,
            Err(e) => {
                return Err(e);
            },
        };
        let flags = match read_u16(data, 2) {
            Ok(v) => v,
            Err(e) => {
                return Err(e);
            },
        };
        let questions = match read_u16(data, 4) {
            Ok(v) => v,
            Err(e) => {
                return Err(e);
            },
        };
        let answers = match read_u16(data, 6) {
            Ok(v) => v,
            Err(e) => {
                return Err(e);
            },
        };
        let authority_rr = match read_u16(data, 8) {
            Ok(v) => v,
            Err(e) => {
                return Err(e);
            },
        };
        let additional_rr = match read_u16(data, 10) {
            Ok(v) => v,
            Err(e) => {
                return Err(e);
            },
        };
        let mut query_requests: Vec<DNSQueryRequest> = Vec::new();
        let mut pos: usize = 12;
        let mut i: u16 = 0;
        proof {
            assert(question_views(query_requests@) =~= Seq::<DNSQueryRequestView>::empty());
            match spec_parse_questions(data@, 12, questions as int) {
                Ok((qs, _end)) => {
                    assert(Seq::<DNSQueryRequestView>::empty() + qs =~= qs);
                },
                Err(_) => {},
            }
        }
        while i < questions
            invariant
                i <= questions,
                data@.len() >= 12,
                questions == be16_of(data@, 4),
                match spec_parse_questions(data@, pos as int, questions as int - i as int) {
                    Ok((qs, end)) => spec_parse_questions(data@, 12, questions as int) == Ok::<
                        (Seq<DNSQueryRequestView>, int),
                        DecodeError,
                    >((question_views(query_requests@) + qs, end)),
                    Err(e) => spec_parse_questions(data@, 12, questions as int) == Err::<
                        (Seq<DNSQueryRequestView>, int),
                        DecodeError,
                    >(e),
                },
            decreases questions as int - i as int,
        {
            let (q, after) = match DNSQueryRequest::decode(data, pos) {
                Ok(v) => v,
                Err(e) => {
                    return Err(e);
                },
            };
            proof {
                let ghost acc = question_views(query_requests@);
                match spec_parse_questions(data@, after as int, questions as int - i as int - 1) {
                    Ok((qs2, _e2)) => {
                        assert(acc + (seq![q@] + qs2) =~= (acc + seq![q@]) + qs2);
                    },
                    Err(_) => {},
                }
            }
            let ghost qr0 = query_requests@;
            query_requests.push(q);
            proof {
                assert(question_views(query_requests@) =~= question_views(qr0) + seq![q@]);
            }
            pos = after;
            i = i + 1;
        }
        proof {
            match spec_parse_questions(data@, pos as int, 0) {
                Ok((qs, _end)) => {
                    assert(question_views(query_requests@) + qs =~= question_views(
                        query_requests@,
                    ));
                },
                Err(_) => {},
            }
        }
        Ok(
            DNSQuery {
                id,
                flags,
                questions,
                answers,
                authority_rr,
                additional_rr,
                query_requests,
            },
        )
    }
}

} // verus!
