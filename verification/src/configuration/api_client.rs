//! The two computing halves of a time-series query: before the request, the
//! descriptors become the address to ask; after it, the status and the body
//! of the answer become a table or a typed failure. Sending the request lies
//! between the two and is left to the caller.

use crate::connector_components::format::Format;
use crate::connector_components::locations::Locations;
use crate::connector_components::optionals::Optionals;
use crate::connector_components::parameters::Parameters;
use crate::connector_components::valid_date_time::{ambiguity_message, ValidDateTime};
use crate::entities::connector_error::ConnectorError;
use crate::entities::connector_response::{
    all_fit,
    csv_rows,
    first_misfit,
    records_of,
    ConnectorResponse,
    ResponseBody,
};
use crate::text::{nat_text, push_nat, texts};
use vstd::prelude::*;
use vstd::string::StringExecFns;

verus! {

/// The outside failure of resolving an address.
#[verifier::external_type_specification]
#[verifier::external_body]
pub struct ExParseError(url::ParseError);

/// The origin that every request goes to.
pub const DEFAULT_API_BASE_URL: &'static str = "https://api.meteomatics.com";

/// The name of the column that holds the timestamp of each record.
pub const TIMESTAMP_COLUMN: &'static str = "validdate";

/// The address that `reference` resolves to against the absolute address
/// `base`, or nothing where either cannot be parsed.
pub uninterp spec fn resolved_url(base: Seq<char>, reference: Seq<char>) -> Option<Seq<char>>;

/// Resolves a reference against a base with the `url` crate: `Url::parse`
/// reads the base, `Url::join` resolves the reference against it, and the
/// resulting address is handed back as text. Nothing is proved of the
/// address; it only gets its name. The failure is that of `parse` or `join`.
#[verifier::external_body]
fn resolve(base: &str, reference: &str) -> (address: Result<String, url::ParseError>)
    ensures
        address is Ok <==> resolved_url(base@, reference@) is Some,
        address is Ok ==> resolved_url(base@, reference@) == Some(address->Ok_0@),
{
    let base_url = url::Url::parse(base)?;
    let full_url = base_url.join(reference)?;
    Ok(String::from(full_url))
}

/// The path and query of a request: the time segment, the parameters, the
/// location and the format, separated by slashes; then, where flags are
/// given, a question mark and the flags.
pub open spec fn fragment_text(
    vdt: ValidDateTime,
    parameters: Parameters,
    locations: Locations,
    optionals: Option<Optionals>,
) -> Seq<char> {
    vdt.segment() + seq!['/'] + parameters.text() + seq!['/'] + locations.text() + seq!['/']
        + Format::CSV.text() + match optionals {
        None => Seq::empty(),
        Some(flags) => seq!['?'] + flags.text(),
    }
}

/// Renders the path and query of a request. Fails exactly where the time
/// specification cannot be rendered, with its failure.
pub fn url_fragment(
    vdt: &ValidDateTime,
    parameters: &Parameters,
    locations: &Locations,
    optionals: &Option<Optionals>,
) -> (fragment: Result<String, ConnectorError>)
    ensures
        fragment is Err <==> vdt.is_ambiguous(),
        fragment is Err ==> fragment->Err_0 is LibraryError && fragment->Err_0->LibraryError_0@
            == ambiguity_message(),
        fragment is Ok ==> fragment->Ok_0@ == fragment_text(
            *vdt,
            *parameters,
            *locations,
            *optionals,
        ),
{
    proof {
        reveal_strlit("/");
        reveal_strlit("?");
    }
    let mut out = match vdt.format() {
        Ok(segment) => segment,
        Err(error) => {
            return Err(error);
        },
    };
    out.append("/");
    out.append(parameters.to_string().as_str());
    out.append("/");
    out.append(locations.to_string().as_str());
    out.append("/");
    out.append(Format::CSV.to_string().as_str());
    match optionals {
        None => {},
        Some(flags) => {
            out.append("?");
            out.append(flags.to_string().as_str());
        },
    }
    assert(out@ =~= fragment_text(*vdt, *parameters, *locations, *optionals));
    Ok(out)
}

/// The address of a request: the path and query resolved against the fixed
/// origin. Nothing where the resolution fails.
pub fn build_url(url_fragment: &str) -> (address: Option<String>)
    ensures
        address is Some <==> resolved_url(DEFAULT_API_BASE_URL@, url_fragment@) is Some,
        address is Some ==> resolved_url(DEFAULT_API_BASE_URL@, url_fragment@) == Some(
            address->0@,
        ),
{
    match resolve(DEFAULT_API_BASE_URL, url_fragment) {
        Ok(address) => Some(address),
        Err(_) => None,
    }
}

/// What decoding a body comes to, given the rows that the tokenizer finds in
/// it. Where the tokenizer accepts the body and every row holds a timestamp
/// and one value per parameter: a table whose columns are the prefix columns
/// followed by the parameters' tokens and whose records are those of the
/// rows, with the status as given. Where a row has another width: the decode
/// failure that names the first such row. Where the tokenizer rejects the
/// body: its failure.
pub open spec fn decoded_as(
    body: Seq<char>,
    prefix: Seq<Seq<char>>,
    parameters: Parameters,
    code: Seq<char>,
    message: Seq<char>,
    outcome: Result<ConnectorResponse, ConnectorError>,
) -> bool {
    let wanted = parameters.p_values@.len() as usize;
    match csv_rows(body) {
        Some(rows) => if all_fit(rows, wanted) {
            &&& outcome is Ok
            &&& outcome->Ok_0.response_body.headers() == prefix + parameters.parts()
            &&& outcome->Ok_0.response_body.records() == records_of(rows)
            &&& outcome->Ok_0.http_status_code@ == code
            &&& outcome->Ok_0.http_status_message@ == message
        } else {
            &&& outcome is Err
            &&& outcome->Err_0 is GenericError
            &&& outcome->Err_0->GenericError_0 is RowWidth
            &&& first_misfit(rows, wanted, outcome->Err_0->GenericError_0->row as int)
            &&& outcome->Err_0->GenericError_0->found == rows[outcome->Err_0->GenericError_0->row as int
            ].len()
            &&& outcome->Err_0->GenericError_0->wanted == wanted
        },
        None => {
            &&& outcome is Err
            &&& outcome->Err_0 is GenericError
            &&& outcome->Err_0->GenericError_0 is Tokenizer
        },
    }
}

/// Decodes the body of a successful answer into a table under the prefix
/// columns and one column per parameter, and puts the status beside it.
pub fn create_response(
    http_status_code: String,
    http_status_message: String,
    body: &str,
    prefix_headers: &Vec<String>,
    parameters: &Parameters,
) -> (outcome: Result<ConnectorResponse, ConnectorError>)
    ensures
        decoded_as(
            body@,
            texts(prefix_headers@),
            *parameters,
            http_status_code@,
            http_status_message@,
            outcome,
        ),
{
    let mut response_body = ResponseBody::new();
    let mut i: usize = 0;
    while i < prefix_headers.len()
        invariant
            i <= prefix_headers.len(),
            response_body.response_records@.len() == 0,
            response_body.headers() == texts(prefix_headers@).take(i as int),
        decreases prefix_headers.len() - i,
    {
        let ghost before = response_body.headers();
        response_body.add_header(prefix_headers[i].clone());
        assert(response_body.headers() =~= before.push(prefix_headers@[i as int]@));
        assert(texts(prefix_headers@).take(i + 1) =~= before.push(prefix_headers@[i as int]@));
        i = i + 1;
    }
    assert(texts(prefix_headers@).take(prefix_headers.len() as int) =~= texts(prefix_headers@));
    let tokens = parameters.tokens();
    assert(tokens.len() == texts(tokens@).len());
    let mut k: usize = 0;
    while k < tokens.len()
        invariant
            k <= tokens.len(),
            response_body.response_records@.len() == 0,
            response_body.headers() == texts(prefix_headers@) + texts(tokens@).take(k as int),
        decreases tokens.len() - k,
    {
        let ghost before = response_body.headers();
        response_body.add_header(tokens[k].clone());
        assert(response_body.headers() =~= before.push(tokens@[k as int]@));
        assert(texts(tokens@).take(k + 1) =~= texts(tokens@).take(k as int).push(
            tokens@[k as int]@,
        ));
        assert(response_body.headers() =~= texts(prefix_headers@) + texts(tokens@).take(k + 1));
        k = k + 1;
    }
    assert(texts(tokens@).take(tokens.len() as int) =~= texts(tokens@));
    let ghost empty = response_body;
    match response_body.populate_records(body, parameters.p_values.len()) {
        Ok(()) => {
            proof {
                let rows = csv_rows(body@)->0;
                assert(response_body.records() =~= records_of(rows)) by {
                    assert(empty.records() =~= Seq::empty());
                }
            }
            Ok(ConnectorResponse { response_body, http_status_code, http_status_message })
        },
        Err(error) => Err(ConnectorError::GenericError(error)),
    }
}

/// True of the statuses that stand for success: 200 to 299.
pub open spec fn is_success(status: u16) -> bool {
    200 <= status < 300
}

/// Turns an answer into the result of the query. A status outside the
/// success range gives the failure that carries the status line, the body as
/// received and the status, whatever the body holds: such a body is never
/// decoded. A status inside it has the body decoded under the timestamp
/// column and one column per parameter; the result then carries the status
/// in decimal and the status line.
pub fn read_response(
    status: u16,
    http_status_message: String,
    body: String,
    parameters: &Parameters,
) -> (outcome: Result<ConnectorResponse, ConnectorError>)
    ensures
        !is_success(status) ==> outcome is Err && outcome->Err_0.is_http(
            http_status_message@,
            body@,
            status,
        ),
        is_success(status) ==> decoded_as(
            body@,
            seq![TIMESTAMP_COLUMN@],
            *parameters,
            nat_text(status as nat),
            http_status_message@,
            outcome,
        ),
{
    if status < 200 || status >= 300 {
        return Err(ConnectorError::HttpError(http_status_message, body, status));
    }
    let mut http_status_code = String::new();
    push_nat(&mut http_status_code, status as u64);
    assert(http_status_code@ =~= nat_text(status as nat));
    let mut prefix_headers: Vec<String> = Vec::new();
    prefix_headers.push(String::from_str(TIMESTAMP_COLUMN));
    assert(texts(prefix_headers@) =~= seq![TIMESTAMP_COLUMN@]);
    create_response(
        http_status_code,
        http_status_message,
        body.as_str(),
        &prefix_headers,
        parameters,
    )
}

} // verus!
