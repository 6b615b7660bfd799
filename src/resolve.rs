//! Resolution of a descriptor into a request ready for dispatch: method check,
//! URL, headers, content-type driven body encoding, and the curl command that
//! reproduces exactly what is sent.
use vstd::prelude::*;
use vstd::string::*;
use crate::headers::{
    build_headers, header_ok, insert_header, is_header_value, lemma_build_headers_fails, set_header,
    validate_headers,
};
use crate::request::{
    classify_content_type, content_kind_of, method_of, parse_method, BodyView, ContentKind,
    ErrorView, RequestDescriptor, RequestError, ResolvedRequest, ResolvedView, WireBody,
};
use crate::url::{copy_pairs, opt_pairs_view, pairs_view, resolve_url, resolved_url};

verus! {

/// The `-F` flags, one per form field, in order.
pub open spec fn form_flags(fs: Seq<(Seq<char>, Seq<char>)>) -> Seq<char>
    decreases fs.len(),
{
    if fs.len() == 0 {
        Seq::empty()
    } else {
        form_flags(fs.drop_last()) + " -F '"@ + fs.last().0 + "="@ + fs.last().1 + "'"@
    }
}

/// The payload that an encoding makes of the body text and the form fields.
pub open spec fn encoded_body(
    kind: ContentKind,
    body: Option<Seq<char>>,
    form: Seq<(Seq<char>, Seq<char>)>,
) -> BodyView {
    match kind {
        ContentKind::Multipart => BodyView::Form(form),
        _ => match body {
            Some(b) => BodyView::Text(b),
            None => BodyView::Empty,
        },
    }
}

/// The command-line flags that reproduce the payload of an encoding.
pub open spec fn body_flags(
    kind: ContentKind,
    body: Option<Seq<char>>,
    form: Seq<(Seq<char>, Seq<char>)>,
) -> Seq<char> {
    match kind {
        ContentKind::Multipart => form_flags(form),
        ContentKind::JsonOrXml => match body {
            Some(b) => " -d '"@ + b + "'"@,
            None => Seq::empty(),
        },
        ContentKind::UrlEncoded => match body {
            Some(b) => " --data-urlencode '"@ + b + "'"@,
            None => Seq::empty(),
        },
    }
}

/// An optional string as an optional character sequence.
pub open spec fn opt_text(o: Option<String>) -> Option<Seq<char>> {
    match o {
        Some(s) => Some(s@),
        None => None,
    }
}

/// The query parameters of a descriptor, kept apart from an absent mapping.
pub open spec fn opt_query(o: Option<Vec<(String, String)>>) -> Option<Seq<(Seq<char>, Seq<char>)>> {
    match o {
        Some(v) => Some(pairs_view(v@)),
        None => None,
    }
}

/// The opening of the curl command: method and resolved URL.
pub open spec fn command_head(method: Seq<char>, url: Seq<char>) -> Seq<char> {
    "curl -X "@ + method + " '"@ + url + "'"@
}

/// What resolving `d` gives. The method is checked first, then every header
/// in order, then the content type; the first failure is the result.
pub open spec fn resolution(d: RequestDescriptor) -> Result<ResolvedView, ErrorView> {
    match method_of(d.method@) {
        None => Err(ErrorView::UnsupportedMethod),
        Some(m) => match build_headers(opt_pairs_view(d.headers)) {
            Err(k) => Err(ErrorView::InvalidHeader(k)),
            Ok((set, hflags)) => {
                let url = resolved_url(d.url@, opt_pairs_view(d.path_params), opt_query(d.query_params));
                let head = command_head(d.method@, url) + hflags;
                match d.content_type {
                    None => Ok(
                        ResolvedView { method: m, url, headers: set, body: BodyView::Empty, command: head },
                    ),
                    Some(ct) => match content_kind_of(ct@) {
                        None => Err(ErrorView::UnsupportedContentType(ct@)),
                        Some(kind) => Ok(
                            ResolvedView {
                                method: m,
                                url,
                                headers: set_header(set, "content-type"@, ct@),
                                body: encoded_body(kind, opt_text(d.body), opt_pairs_view(d.form_data)),
                                command: head + " -H 'Content-Type: "@ + ct@ + "'"@ + body_flags(
                                    kind,
                                    opt_text(d.body),
                                    opt_pairs_view(d.form_data),
                                ),
                            },
                        ),
                    },
                }
            },
        },
    }
}

/// Appends the `-F` flag of each form field to `out`.
pub fn append_form_flags(out: &mut String, fs: &Vec<(String, String)>)
    ensures
        final(out)@ == old(out)@ + form_flags(pairs_view(fs@)),
{
    let mut i: usize = 0;
    proof {
        assert(pairs_view(fs@).take(0) =~= Seq::<(Seq<char>, Seq<char>)>::empty());
        assert(out@ + Seq::<char>::empty() =~= out@);
    }
    while i < fs.len()
        invariant
            i <= fs@.len(),
            out@ == old(out)@ + form_flags(pairs_view(fs@).take(i as int)),
        decreases fs@.len() - i,
    {
        let ghost before = out@;
        out.append(" -F '");
        out.append(fs[i].0.as_str());
        out.append("=");
        out.append(fs[i].1.as_str());
        out.append("'");
        proof {
            let ps = pairs_view(fs@);
            assert(ps.take(i + 1).drop_last() =~= ps.take(i as int));
            assert(ps.take(i + 1).last() == ps[i as int]);
            assert(out@ =~= old(out)@ + form_flags(ps.take(i + 1)));
        }
        i = i + 1;
    }
    proof {
        assert(pairs_view(fs@).take(i as int) =~= pairs_view(fs@));
    }
}

/// Builds the payload of an encoding, and appends to `command` the flags that
/// reproduce it.
pub fn encode_body(
    kind: ContentKind,
    body: &Option<String>,
    form: &Option<Vec<(String, String)>>,
    command: &mut String,
) -> (r: WireBody)
    ensures
        r@ == encoded_body(kind, opt_text(*body), opt_pairs_view(*form)),
        final(command)@ == old(command)@ + body_flags(kind, opt_text(*body), opt_pairs_view(*form)),
{
    match kind {
        ContentKind::Multipart => {
            let fields = match form {
                Some(f) => copy_pairs(f),
                None => Vec::new(),
            };
            proof {
                if form.is_some() {
                } else {
                    assert(pairs_view(fields@) =~= Seq::<(Seq<char>, Seq<char>)>::empty());
                }
            }
            append_form_flags(command, &fields);
            WireBody::Form(fields)
        },
        ContentKind::JsonOrXml => match body {
            Some(b) => {
                command.append(" -d '");
                command.append(b.as_str());
                command.append("'");
                WireBody::Text(b.clone())
            },
            None => {
                proof {
                    assert(old(command)@ + Seq::<char>::empty() =~= old(command)@);
                }
                WireBody::Empty
            },
        },
        ContentKind::UrlEncoded => match body {
            Some(b) => {
                command.append(" --data-urlencode '");
                command.append(b.as_str());
                command.append("'");
                WireBody::Text(b.clone())
            },
            None => {
                proof {
                    assert(old(command)@ + Seq::<char>::empty() =~= old(command)@);
                }
                WireBody::Empty
            },
        },
    }
}

/// Resolves a descriptor into a request ready for dispatch, or the first
/// validation error; nothing is sent in either case.
pub fn prepare_request(d: &RequestDescriptor) -> (r: Result<ResolvedRequest, RequestError>)
    ensures
        match r {
            Ok(q) => resolution(*d) == Ok::<ResolvedView, ErrorView>(q@),
            Err(e) => resolution(*d) == Err::<ResolvedView, ErrorView>(e@),
        },
{
    let method = match parse_method(d.method.as_str()) {
        Some(m) => m,
        None => {
            return Err(RequestError::UnsupportedMethod);
        },
    };
    let (mut headers, flags) = match &d.headers {
        Some(hs) => match validate_headers(hs) {
            Ok(built) => built,
            Err(key) => {
                return Err(RequestError::InvalidHeader { key });
            },
        },
        None => {
            proof {
                assert(build_headers(Seq::empty()) == Ok::<_, Seq<char>>(
                    (Seq::<(Seq<char>, Seq<char>)>::empty(), Seq::<char>::empty()),
                ));
            }
            let empty: Vec<(String, String)> = Vec::new();
            proof {
                assert(pairs_view(empty@) =~= Seq::<(Seq<char>, Seq<char>)>::empty());
            }
            (empty, String::new())
        },
    };
    proof {
        crate::headers::lemma_build_headers_unique(opt_pairs_view(d.headers));
    }
    let url = resolve_url(d.url.as_str(), &d.path_params, &d.query_params);
    let mut command = String::from_str("curl -X ");
    command.append(d.method.as_str());
    command.append(" '");
    command.append(url.as_str());
    command.append("'");
    command.append(flags.as_str());
    match &d.content_type {
        None => Ok(ResolvedRequest { method, url, headers, body: WireBody::Empty, command }),
        Some(ct) => {
            let kind = match classify_content_type(ct.as_str()) {
                Some(k) => k,
                None => {
                    return Err(RequestError::UnsupportedContentType { value: ct.clone() });
                },
            };
            insert_header(&mut headers, String::from_str("content-type"), ct.clone());
            command.append(" -H 'Content-Type: ");
            command.append(ct.as_str());
            command.append("'");
            let body = encode_body(kind, &d.body, &d.form_data, &mut command);
            Ok(ResolvedRequest { method, url, headers, body, command })
        },
    }
}

/// A descriptor whose method is outside the supported set is rejected as
/// such, whatever else it holds, before anything could be sent.
pub proof fn unsupported_method_rejected(d: RequestDescriptor)
    requires
        method_of(d.method@) is None,
    ensures
        resolution(d) == Err::<ResolvedView, ErrorView>(ErrorView::UnsupportedMethod),
{
}

/// With a supported method, a header mapping that holds a value with a
/// character illegal in a header is rejected, naming a header whose name or
/// value is illegal; nothing is sent.
pub proof fn illegal_header_value_rejected(d: RequestDescriptor, i: int)
    requires
        method_of(d.method@) is Some,
        0 <= i < opt_pairs_view(d.headers).len(),
        !is_header_value(opt_pairs_view(d.headers)[i].1),
    ensures
        resolution(d) matches Err(ErrorView::InvalidHeader(k)) && exists|j: int|
            0 <= j < opt_pairs_view(d.headers).len() && !header_ok(
                #[trigger] opt_pairs_view(d.headers)[j],
            ) && opt_pairs_view(d.headers)[j].0 == k,
{
    let hs = opt_pairs_view(d.headers);
    assert(!header_ok(hs[i]));
    lemma_build_headers_fails(hs);
}

} // verus!
