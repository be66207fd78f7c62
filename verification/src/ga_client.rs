//! # Google Analytics API Client
//!
//! What the Google Analytics Admin/Data REST endpoints are asked, and how their answers
//! are read.

use vstd::prelude::*;
use vstd::string::*;

use crate::config;
use crate::config::UpstreamTokenSource;
use crate::error::{AnalyticsError, Problem};
use crate::json;
use crate::json::{Object, Tree, Json};
use crate::text;

verus! {

// ---------------------------------------------------------------------------
// Resource names.
// ---------------------------------------------------------------------------

#[derive(Debug)]
pub enum PropertyId {
    Number(u64),
    Text(String),
}

#[derive(Debug)]
pub enum AccountId {
    Number(u64),
    Text(String),
}

/// The number that a resource is written with: the number alone, or after the prefix and
/// a slash.
pub open spec fn resource_number(raw: Seq<char>, prefix: Seq<char>) -> Option<u64> {
    let trimmed = text::trim(raw);
    match text::parsed_u64(trimmed) {
        Some(n) => Some(n),
        None => if text::begins(trimmed, prefix + "/"@) {
            text::parsed_u64(trimmed.skip((prefix + "/"@).len() as int))
        } else {
            None
        },
    }
}

/// The name of the resource with that number.
pub open spec fn resource_name(prefix: Seq<char>, n: u64) -> Seq<char> {
    prefix + "/"@ + text::decimal(n as nat)
}

/// What a resource identifier says: a number, or text to be read as one.
pub enum ResourceId {
    Number(u64),
    Text(Seq<char>),
}

/// The resource name of an identifier, or what is wrong with it.
pub open spec fn named_resource(
    id: ResourceId,
    field: Seq<char>,
    prefix: Seq<char>,
    expected: Seq<char>,
) -> Result<Seq<char>, Problem> {
    match id {
        ResourceId::Number(n) => Ok(resource_name(prefix, n)),
        ResourceId::Text(raw) => if text::is_blank(raw) {
            Err(Problem::InvalidArgument(field, "must not be empty"@))
        } else {
            match resource_number(raw, prefix) {
                Some(n) => Ok(resource_name(prefix, n)),
                None => Err(Problem::InvalidArgument(field, expected)),
            }
        },
    }
}

/// What a result says, over plain text.
pub open spec fn text_result(r: Result<String, AnalyticsError>) -> Result<Seq<char>, Problem> {
    match r {
        Ok(held) => Ok(held@),
        Err(err) => Err(err@),
    }
}

/// The name of the resource with that number.
fn resource_text(prefix: &str, n: u64) -> (r: String)
    ensures
        r@ == resource_name(prefix@, n),
{
    let mut r: String = prefix.to_owned();
    r.append("/");
    r.append(text::decimal_text(n).as_str());
    r
}

/// The resource name of a written identifier.
pub fn parse_resource_name(
    raw: &str,
    field_name: &'static str,
    resource_prefix: &str,
    expected_message: &str,
) -> (r: Result<String, AnalyticsError>)
    ensures
        text_result(r) == named_resource(
            ResourceId::Text(raw@),
            field_name@,
            resource_prefix@,
            expected_message@,
        ),
{
    let trimmed: String = text::trimmed(raw);
    if trimmed.as_str().is_empty() {
        return Err(AnalyticsError::invalid(field_name, "must not be empty"));
    }
    match text::parse_u64(trimmed.as_str()) {
        Some(number) => {
            return Ok(resource_text(resource_prefix, number));
        },
        None => {},
    }
    let mut lead: String = resource_prefix.to_owned();
    lead.append("/");
    match text::strip_prefix(trimmed.as_str(), lead.as_str()) {
        Some(rest) => match text::parse_u64(rest.as_str()) {
            Some(number) => {
                return Ok(resource_text(resource_prefix, number));
            },
            None => {},
        },
        None => {},
    }
    Err(AnalyticsError::invalid(field_name, expected_message))
}

impl PropertyId {
    /// What the identifier says.
    pub open spec fn id(self) -> ResourceId {
        match self {
            PropertyId::Number(n) => ResourceId::Number(n),
            PropertyId::Text(raw) => ResourceId::Text(raw@),
        }
    }

    /// The resource name of the property, or what is wrong with the identifier.
    pub open spec fn named(self) -> Result<Seq<char>, Problem> {
        named_resource(
            self.id(),
            "property_id"@,
            "properties"@,
            "expected a number or 'properties/<number>'"@,
        )
    }

    /// The resource name of the property.
    pub fn to_resource_name(&self) -> (r: Result<String, AnalyticsError>)
        ensures
            text_result(r) == self.named(),
    {
        match self {
            PropertyId::Number(number) => Ok(resource_text("properties", *number)),
            PropertyId::Text(raw) => parse_resource_name(
                raw.as_str(),
                "property_id",
                "properties",
                "expected a number or 'properties/<number>'",
            ),
        }
    }
}

impl AccountId {
    /// What the identifier says.
    pub open spec fn id(self) -> ResourceId {
        match self {
            AccountId::Number(n) => ResourceId::Number(n),
            AccountId::Text(raw) => ResourceId::Text(raw@),
        }
    }

    /// The resource name of the account, or what is wrong with the identifier.
    pub open spec fn named(self) -> Result<Seq<char>, Problem> {
        named_resource(
            self.id(),
            "account_id"@,
            "accounts"@,
            "expected a number or 'accounts/<number>'"@,
        )
    }

    /// The resource name of the account.
    pub fn to_resource_name(&self) -> (r: Result<String, AnalyticsError>)
        ensures
            text_result(r) == self.named(),
    {
        match self {
            AccountId::Number(number) => Ok(resource_text("accounts", *number)),
            AccountId::Text(raw) => parse_resource_name(
                raw.as_str(),
                "account_id",
                "accounts",
                "expected a number or 'accounts/<number>'",
            ),
        }
    }
}

impl Clone for PropertyId {
    fn clone(&self) -> (copy: Self)
        ensures
            copy == *self,
    {
        match self {
            PropertyId::Number(n) => PropertyId::Number(*n),
            PropertyId::Text(raw) => PropertyId::Text(raw.clone()),
        }
    }
}

proof fn lemma_resource_name_reads_back(prefix: Seq<char>, n: u64)
    requires
        prefix.len() > 0,
        !text::is_space(prefix[0]),
        !text::is_digit(prefix[0]),
        prefix[0] != '+',
    ensures
        resource_number(resource_name(prefix, n), prefix) == Some(n),
        !text::is_blank(resource_name(prefix, n)),
{
    reveal_strlit("/");
    let name = resource_name(prefix, n);
    let digits = text::decimal(n as nat);
    text::lemma_decimal(n as nat);
    text::law_decimal_reads_back(n);
    assert(name[0] == prefix[0]);
    assert(name.last() == digits.last());
    assert(text::is_digit(digits[digits.len() - 1]));
    assert(text::trim_start(name) == name);
    assert(text::trim(name) == name);
    assert(text::parsed_u64(name) is None) by {
        assert(!text::is_digit(name[0]));
    }
    let lead = prefix + "/"@;
    assert(name.take(lead.len() as int) =~= lead);
    assert(name.skip(lead.len() as int) =~= digits);
}

/// A resource name that was made is read as itself: naming is stable.
pub proof fn law_resource_names_are_stable(id: PropertyId, account: AccountId)
    ensures
        id.named() matches Ok(name) ==> named_resource(
            ResourceId::Text(name),
            "property_id"@,
            "properties"@,
            "expected a number or 'properties/<number>'"@,
        ) == id.named(),
        account.named() matches Ok(name) ==> named_resource(
            ResourceId::Text(name),
            "account_id"@,
            "accounts"@,
            "expected a number or 'accounts/<number>'"@,
        ) == account.named(),
{
    reveal_strlit("properties");
    reveal_strlit("accounts");
    let property_number = match id.id() {
        ResourceId::Number(n) => Some(n),
        ResourceId::Text(raw) => resource_number(raw, "properties"@),
    };
    let account_number = match account.id() {
        ResourceId::Number(n) => Some(n),
        ResourceId::Text(raw) => resource_number(raw, "accounts"@),
    };
    if property_number is Some {
        lemma_resource_name_reads_back("properties"@, property_number->0);
    }
    if account_number is Some {
        lemma_resource_name_reads_back("accounts"@, account_number->0);
    }
}

// ---------------------------------------------------------------------------
// Request tokens.
// ---------------------------------------------------------------------------

/// What follows the `Bearer` scheme in a header value.
pub open spec fn after_bearer(value: Seq<char>) -> Option<Seq<char>> {
    match text::split_at_first(value, " "@) {
        Some(pair) => if text::lowered(pair.0) == text::lowered("bearer"@) {
            Some(pair.1)
        } else {
            None
        },
        None => None,
    }
}

/// The token of a header value, or what is wrong with it.
pub open spec fn token_of(value: Seq<char>, header: Seq<char>) -> Result<Seq<char>, Seq<char>> {
    match after_bearer(value) {
        Some(rest) => if text::is_blank(rest) {
            Err("Bearer token is empty"@)
        } else {
            Ok(text::trim(rest))
        },
        None => if text::has_space(value) {
            if text::lowered(header) == text::lowered("authorization"@) {
                Err("authorization header must use 'Bearer <token>' or a compact token value"@)
            } else {
                Err("token header must be a compact token or use Bearer scheme"@)
            }
        } else {
            Ok(value)
        },
    }
}

/// Whether two texts are equal but for the case of ASCII letters.
fn same_but_case(left: &str, right: &str) -> (r: bool)
    ensures
        r == (text::lowered(left@) == text::lowered(right@)),
{
    let a: String = text::to_lower(left);
    let b: String = text::to_lower(right);
    text::same_text(a.as_str(), b.as_str())
}

/// What follows the `Bearer` scheme in a header value.
pub fn strip_bearer_scheme(value: &str) -> (r: Option<String>)
    ensures
        text::opt_text(r) == after_bearer(value@),
{
    match text::split_once(value, " ") {
        Some(pair) => if same_but_case(pair.0.as_str(), "bearer") {
            Some(pair.1)
        } else {
            None
        },
        None => None,
    }
}

/// The token of a header value.
pub fn normalize_request_token_value(raw_value: &str, header_name: &str) -> (r: Result<
    String,
    String,
>)
    ensures
        match r {
            Ok(token) => token_of(raw_value@, header_name@) == Ok::<Seq<char>, Seq<char>>(token@),
            Err(message) => token_of(raw_value@, header_name@) == Err::<Seq<char>, Seq<char>>(
                message@,
            ),
        },
{
    match strip_bearer_scheme(raw_value) {
        Some(stripped) => {
            let token: String = text::trimmed(stripped.as_str());
            if token.as_str().is_empty() {
                return Err("Bearer token is empty".to_owned());
            }
            return Ok(token);
        },
        None => {},
    }
    if text::any_space(raw_value) {
        if same_but_case(header_name, "authorization") {
            return Err(
                "authorization header must use 'Bearer <token>' or a compact token value".to_owned(),
            );
        }
        return Err("token header must be a compact token or use Bearer scheme".to_owned());
    }
    Ok(raw_value.to_owned())
}

/// The token that a request carries, if any, or what is wrong with it.
pub open spec fn request_token(raw: Option<Seq<char>>, header: Seq<char>) -> Result<
    Option<Seq<char>>,
    Problem,
> {
    match config::cleaned(raw) {
        None => Ok(None),
        Some(value) => match token_of(value, header) {
            Ok(token) => Ok(Some(token)),
            Err(message) => Err(Problem::MalformedRequestAccessToken(header, message)),
        },
    }
}

/// The token that a request carries, if any.
pub fn parse_request_token_header_value(raw_value: Option<&str>, header_name: &str) -> (r: Result<
    Option<String>,
    AnalyticsError,
>)
    ensures
        match r {
            Ok(token) => request_token(text::opt_str(raw_value), header_name@) == Ok::<
                Option<Seq<char>>,
                Problem,
            >(text::opt_text(token)),
            Err(err) => request_token(text::opt_str(raw_value), header_name@) == Err::<
                Option<Seq<char>>,
                Problem,
            >(err@),
        },
{
    match raw_value {
        None => Ok(None),
        Some(raw) => {
            let value: String = text::trimmed(raw);
            if value.as_str().is_empty() {
                return Ok(None);
            }
            match normalize_request_token_value(value.as_str(), header_name) {
                Ok(token) => Ok(Some(token)),
                Err(message) => Err(
                    AnalyticsError::malformed_request_access_token(header_name, message.as_str()),
                ),
            }
        },
    }
}

/// Where the access token of an upstream call comes from.
#[derive(Debug)]
pub enum TokenStep {
    /// The token that the request carries.
    Use(String),
    /// The server's own credentials.
    Configured,
}

impl TokenStep {
    /// The token that the request carries, where that is the one.
    pub open spec fn brought(self) -> Option<Seq<char>> {
        match self {
            TokenStep::Use(token) => Some(token@),
            TokenStep::Configured => None,
        }
    }
}

/// The token of an upstream call where the request carries it, or nothing where it is the
/// server's own; a request without a token is refused where requests must carry one.
pub open spec fn token_choice(
    token_source: UpstreamTokenSource,
    token_header: Seq<char>,
    request_token_raw: Option<Seq<char>>,
) -> Result<Option<Seq<char>>, Problem> {
    match request_token(request_token_raw, token_header) {
        Err(problem) => Err(problem),
        Ok(None) => if token_source == UpstreamTokenSource::RequestHeader {
            Err(Problem::MissingRequestAccessToken(token_header))
        } else {
            Ok(None)
        },
        Ok(Some(token)) => if token_source == UpstreamTokenSource::Config {
            Ok(None)
        } else {
            Ok(Some(token))
        },
    }
}

/// Decides where the access token of an upstream call comes from; a request without a
/// token is refused where requests must carry one.
pub fn choose_access_token(
    token_source: UpstreamTokenSource,
    token_header: &str,
    request_token_raw: Option<&str>,
) -> (r: Result<TokenStep, AnalyticsError>)
    ensures
        match r {
            Ok(step) => token_choice(token_source, token_header@, text::opt_str(request_token_raw))
                == Ok::<Option<Seq<char>>, Problem>(step.brought()),
            Err(err) => token_choice(token_source, token_header@, text::opt_str(request_token_raw))
                == Err::<Option<Seq<char>>, Problem>(err@),
        },
{
    let request_token: Option<String> = match parse_request_token_header_value(
        request_token_raw,
        token_header,
    ) {
        Ok(token) => token,
        Err(err) => {
            return Err(err);
        },
    };
    match token_source {
        UpstreamTokenSource::Config => Ok(TokenStep::Configured),
        UpstreamTokenSource::RequestHeader => match request_token {
            Some(token) => Ok(TokenStep::Use(token)),
            None => Err(AnalyticsError::missing_request_access_token(token_header)),
        },
        UpstreamTokenSource::RequestHeaderOrConfig => match request_token {
            Some(token) => Ok(TokenStep::Use(token)),
            None => Ok(TokenStep::Configured),
        },
    }
}

// ---------------------------------------------------------------------------
// Upstream messages.
// ---------------------------------------------------------------------------

/// The number of bytes of an upstream message that are passed on.
pub const MAX_MESSAGE_BYTES: usize = 1_024;

/// A message cut to what is passed on, with dots where something was cut off.
pub open spec fn clipped(message: Seq<char>) -> Seq<char> {
    if text::byte_len(message) <= MAX_MESSAGE_BYTES {
        message
    } else {
        text::fitting(message, MAX_MESSAGE_BYTES as nat) + "..."@
    }
}

/// A message cut to what is passed on; no character is cut in two.
pub fn clip_message(message: String) -> (r: String)
    ensures
        r@ == clipped(message@),
{
    if text::bytes_in(message.as_str()) <= MAX_MESSAGE_BYTES {
        return message;
    }
    let mut r: String = text::fit(message.as_str(), MAX_MESSAGE_BYTES);
    r.append("...");
    r
}

/// What is passed on is never longer than the cut and the dots, and is the message itself
/// or begins as it begins.
pub proof fn law_clipped_messages_are_short(message: Seq<char>)
    ensures
        text::byte_len(clipped(message)) <= MAX_MESSAGE_BYTES + 3,
        clipped(message) == message || exists|n: int|
            0 <= n <= message.len() && clipped(message) == message.take(n) + "..."@,
{
    reveal_strlit("...");
    let head = text::fitting(message, MAX_MESSAGE_BYTES as nat);
    text::lemma_fitting(message, MAX_MESSAGE_BYTES as nat);
    text::lemma_byte_len_concat(head, "..."@);
    assert(text::byte_len("..."@) == 3) by {
        reveal_with_fuel(text::byte_len, 4);
    }
    assert(head + "..."@ == message.take(head.len() as int) + "..."@);
}

/// The error of an upstream answer that is no success, given its body.
pub fn upstream_failure(status: u16, body: &str) -> (r: AnalyticsError)
    ensures
        r@ == Problem::UpstreamApi(
            status,
            if text::is_blank(body@) {
                "no upstream response body"@
            } else {
                clipped(text::trim(body@))
            },
        ),
{
    let message: String = text::trimmed(body);
    let message: String = if message.as_str().is_empty() {
        "no upstream response body".to_owned()
    } else {
        clip_message(message)
    };
    AnalyticsError::UpstreamApi { status, message }
}

// ---------------------------------------------------------------------------
// The outbound form of JSON: keys in camel case.
// ---------------------------------------------------------------------------

/// A key in camel case: each underscore is dropped, and the letter after one is put in
/// upper case.
pub open spec fn camel(key: Seq<char>) -> Seq<char>
    decreases key.len(),
{
    if key.len() == 0 {
        key
    } else {
        let before = camel(key.drop_last());
        if key.last() == '_' {
            before
        } else if key.len() > 1 && key[key.len() - 2] == '_' {
            before.push(text::upper(key.last()))
        } else {
            before.push(key.last())
        }
    }
}

/// A JSON value with all its keys in camel case.
pub open spec fn camel_tree(tree: Tree) -> Tree
    decreases tree,
{
    match tree {
        Tree::Dict(entries) => Tree::Dict(camel_entries(entries)),
        Tree::List(items) => Tree::List(
            Seq::new(
                items.len(),
                |i: int|
                    if 0 <= i < items.len() {
                        camel_tree(items[i])
                    } else {
                        Tree::Null
                    },
            ),
        ),
        _ => tree,
    }
}

/// The entries of an object with their keys in camel case; of entries whose keys become
/// the same, the last one counts.
pub open spec fn camel_entries(entries: Seq<(Seq<char>, Tree)>) -> Seq<(Seq<char>, Tree)>
    decreases entries,
{
    if entries.len() == 0 {
        json::fields()
    } else {
        json::entered(
            camel_entries(entries.drop_last()),
            camel(entries[entries.len() - 1].0),
            camel_tree(entries[entries.len() - 1].1),
        )
    }
}

/// The values of a list with all their keys in camel case.
pub open spec fn camel_list(items: Seq<Tree>) -> Tree {
    Tree::List(Seq::new(items.len(), |i: int| camel_tree(items[i])))
}

/// A key in camel case.
pub fn snake_key_to_camel(key: &str) -> (r: String)
    ensures
        r@ == camel(key@),
{
    let chars: Vec<char> = text::chars_of(key);
    let mut out: String = String::new();
    let mut uppercase_next: bool = false;
    assert(key@.take(0) =~= Seq::<char>::empty());
    for i in 0..chars.len()
        invariant
            chars@ == key@,
            out@ == camel(key@.take(i as int)),
            uppercase_next == (i > 0 && key@[i - 1] == '_'),
    {
        assert(key@.take(i + 1).drop_last() =~= key@.take(i as int));
        if chars[i] == '_' {
            uppercase_next = true;
        } else if uppercase_next {
            out.push(text::upper_char(chars[i]));
            uppercase_next = false;
        } else {
            out.push(chars[i]);
        }
    }
    assert(key@.take(key@.len() as int) =~= key@);
    out
}

/// A JSON value with all its keys in camel case.
pub fn snake_to_camel_json(value: &Json) -> (r: Json)
    ensures
        r@ == camel_tree(value@),
    decreases value,
{
    match value {
        Json::Object(object) => {
            let n: usize = object.entries.len();
            let mut converted = Object::new();
            proof {
                json::lemma_object_tree(*object);
            }
            assert(object@.take(0) =~= json::fields());
            for i in 0..n
                invariant
                    *value == Json::Object(*object),
                    n == object.entries@.len(),
                    converted@ == camel_entries(object@.take(i as int)),
            {
                proof {
                    json::lemma_entry_smaller(*value, i as int);
                }
                let entry: &(String, Json) = &object.entries[i];
                let inner: Json = snake_to_camel_json(&entry.1);
                converted.insert(snake_key_to_camel(entry.0.as_str()).as_str(), inner);
                assert(object@.take(i + 1).drop_last() =~= object@.take(i as int));
                assert(object@.take(i + 1)[i as int] == object@[i as int]);
            }
            assert(object@.take(n as int) =~= object@);
            json::dict(converted)
        },
        Json::Array(items) => {
            proof {
                json::lemma_array_tree(*items);
            }
            let mut converted: Vec<Json> = Vec::new();
            for i in 0..items.len()
                invariant
                    *value == Json::Array(*items),
                    converted@.len() == i,
                    forall|j: int|
                        0 <= j < i ==> (#[trigger] converted@[j])@ == camel_tree(items@[j]@),
            {
                proof {
                    json::lemma_item_smaller(*value, i as int);
                }
                converted.push(snake_to_camel_json(&items[i]));
            }
            assert(json::trees(converted@) =~= camel_tree(value@)->List_0);
            json::array(converted)
        },
        _ => value.clone(),
    }
}

/// The values of a list with all their keys in camel case.
pub fn camel_values(items: &[Json]) -> (r: Json)
    ensures
        r@ == camel_list(json::trees(items@)),
{
    let mut converted: Vec<Json> = Vec::new();
    for i in 0..items.len()
        invariant
            converted@.len() == i,
            forall|j: int| 0 <= j < i ==> (#[trigger] converted@[j])@ == camel_tree(items@[j]@),
    {
        converted.push(snake_to_camel_json(&items[i]));
    }
    assert(json::trees(converted@) =~= camel_list(json::trees(items@))->List_0);
    json::array(converted)
}

/// Whether a tree is in outbound form: no key holds an underscore, and no object has a
/// key twice.
pub open spec fn is_camel(tree: Tree) -> bool
    decreases tree, 1int,
{
    match tree {
        Tree::Dict(entries) => camel_keys(entries),
        Tree::List(items) => forall|i: int| 0 <= i < items.len() ==> is_camel(#[trigger] items[i]),
        _ => true,
    }
}

/// Whether the entries of an object are in outbound form.
pub open spec fn camel_keys(entries: Seq<(Seq<char>, Tree)>) -> bool
    decreases entries, 0int,
{
    &&& forall|i: int|
        0 <= i < entries.len() ==> !(#[trigger] entries[i]).0.contains('_') && is_camel(
            entries[i].1,
        )
    &&& forall|i: int, j: int|
        0 <= i < j < entries.len() ==> (#[trigger] entries[i]).0 != (#[trigger] entries[j]).0
}

proof fn lemma_camel_key(key: Seq<char>)
    ensures
        !camel(key).contains('_'),
        !key.contains('_') ==> camel(key) == key,
    decreases key.len(),
{
    if key.len() > 0 {
        let short = key.drop_last();
        lemma_camel_key(short);
        let now = camel(key);
        if now.contains('_') {
            let k = choose|k: int| 0 <= k < now.len() && now[k] == '_';
            if k < camel(short).len() {
                assert(camel(short)[k] == '_');
            }
        }
        if !key.contains('_') {
            assert forall|c: char| short.contains(c) implies key.contains(c) by {
                let k = choose|k: int| 0 <= k < short.len() && short[k] == c;
                assert(key[k] == c);
            }
            assert(key.contains(key.last()));
            if key.len() > 1 {
                assert(key.contains(key[key.len() - 2]));
            }
            assert(short.push(key.last()) =~= key);
        }
    }
}

proof fn lemma_entered_camel(entries: Seq<(Seq<char>, Tree)>, key: Seq<char>, value: Tree)
    requires
        camel_keys(entries),
        !key.contains('_'),
        is_camel(value),
    ensures
        camel_keys(json::entered(entries, key, value)),
{
    if exists|at: int| 0 <= at < entries.len() && (#[trigger] entries[at]).0 == key {
        let at = choose|at: int| 0 <= at < entries.len() && (#[trigger] entries[at]).0 == key;
        assert forall|j: int| 0 <= j < at implies (#[trigger] entries[j]).0 != key by {
            assert(entries[j].0 != entries[at].0);
        }
        json::lemma_entered_at(entries, key, value, at);
        let after = entries.update(at, (key, value));
        assert forall|i: int| 0 <= i < after.len() implies !(#[trigger] after[i]).0.contains('_')
            && is_camel(after[i].1) by {
            assert(i != at ==> after[i] == entries[i]);
        }
        assert forall|i: int, j: int| 0 <= i < j < after.len() implies (#[trigger] after[i]).0 != (
        #[trigger] after[j]).0 by {
            assert(entries[i].0 != entries[j].0);
        }
    } else {
        json::lemma_entered_absent(entries, key, value);
        let after = entries.push((key, value));
        assert forall|i: int| 0 <= i < after.len() implies !(#[trigger] after[i]).0.contains('_')
            && is_camel(after[i].1) by {
            assert(i < entries.len() ==> after[i] == entries[i]);
        }
        assert forall|i: int, j: int| 0 <= i < j < after.len() implies (#[trigger] after[i]).0 != (
        #[trigger] after[j]).0 by {
            assert(after[i] == entries[i]);
            if j < entries.len() {
                assert(entries[i].0 != entries[j].0);
            }
        }
    }
}

proof fn lemma_camel_entries(entries: Seq<(Seq<char>, Tree)>)
    ensures
        camel_keys(camel_entries(entries)),
        camel_keys(entries) ==> camel_entries(entries) == entries,
    decreases entries, 0int,
{
    if entries.len() > 0 {
        let n = entries.len() - 1;
        let last = entries[n];
        let short = entries.drop_last();
        lemma_camel_entries(short);
        assert(decreases_to!(entries => last));
        assert(decreases_to!(last => last.1));
        lemma_camel_tree(last.1);
        lemma_camel_key(last.0);
        lemma_entered_camel(camel_entries(short), camel(last.0), camel_tree(last.1));
        if camel_keys(entries) {
            assert forall|i: int| 0 <= i < short.len() implies !(
            #[trigger] short[i]).0.contains('_') && is_camel(short[i].1) by {
                assert(short[i] == entries[i]);
            }
            assert forall|i: int, j: int| 0 <= i < j < short.len() implies (
            #[trigger] short[i]).0 != (#[trigger] short[j]).0 by {
                assert(entries[i].0 != entries[j].0);
            }
            assert(!entries[n].0.contains('_') && is_camel(entries[n].1));
            assert forall|j: int| 0 <= j < short.len() implies (#[trigger] short[j]).0
                != last.0 by {
                assert(entries[j].0 != entries[n].0);
            }
            json::lemma_entered_absent(short, last.0, last.1);
            assert(short.push(last) =~= entries);
        }
    } else {
        assert(entries =~= json::fields());
    }
}

proof fn lemma_camel_tree(tree: Tree)
    ensures
        is_camel(camel_tree(tree)),
        is_camel(tree) ==> camel_tree(tree) == tree,
    decreases tree, 1int,
{
    match tree {
        Tree::Dict(entries) => {
            lemma_camel_entries(entries);
        },
        Tree::List(items) => {
            let out = camel_tree(tree)->List_0;
            assert forall|i: int| 0 <= i < items.len() implies is_camel(#[trigger] out[i]) && (
            is_camel(items[i]) ==> out[i] == items[i]) by {
                assert(decreases_to!(tree => items));
                assert(decreases_to!(items => items[i]));
                lemma_camel_tree(items[i]);
            }
            if is_camel(tree) {
                assert(out =~= items);
            }
        },
        _ => {},
    }
}

/// The outbound form is reached in one step: it is in camel case throughout, and putting
/// it in camel case again changes nothing.
pub proof fn law_outbound_form_is_stable(tree: Tree)
    ensures
        is_camel(camel_tree(tree)),
        camel_tree(camel_tree(tree)) == camel_tree(tree),
{
    lemma_camel_tree(tree);
    lemma_camel_tree(camel_tree(tree));
}

// ---------------------------------------------------------------------------
// The canonical form of JSON: keys in dictionary order.
// ---------------------------------------------------------------------------

/// `entries`, which are in order, after `key` was given `value`.
pub open spec fn placed(
    entries: Seq<(Seq<char>, Tree)>,
    key: Seq<char>,
    value: Tree,
) -> Seq<(Seq<char>, Tree)>
    decreases entries.len(),
{
    if entries.len() == 0 {
        seq![(key, value)]
    } else if entries[0].0 == key {
        seq![(key, value)] + entries.drop_first()
    } else if text::precedes(key, entries[0].0) {
        seq![(key, value)] + entries
    } else {
        seq![entries[0]] + placed(entries.drop_first(), key, value)
    }
}

/// A JSON value with the entries of all its objects in dictionary order of their keys.
pub open spec fn sorted_tree(tree: Tree) -> Tree
    decreases tree,
{
    match tree {
        Tree::Dict(entries) => Tree::Dict(sorted_entries(entries)),
        Tree::List(items) => Tree::List(
            Seq::new(
                items.len(),
                |i: int|
                    if 0 <= i < items.len() {
                        sorted_tree(items[i])
                    } else {
                        Tree::Null
                    },
            ),
        ),
        _ => tree,
    }
}

/// The entries of an object in dictionary order of their keys.
pub open spec fn sorted_entries(entries: Seq<(Seq<char>, Tree)>) -> Seq<(Seq<char>, Tree)>
    decreases entries,
{
    if entries.len() == 0 {
        json::fields()
    } else {
        placed(
            sorted_entries(entries.drop_last()),
            entries[entries.len() - 1].0,
            sorted_tree(entries[entries.len() - 1].1),
        )
    }
}

/// Whether the keys of `entries` stand in dictionary order, each once.
pub open spec fn ascending(entries: Seq<(Seq<char>, Tree)>) -> bool {
    forall|i: int, j: int|
        0 <= i < j < entries.len() ==> text::precedes(
            (#[trigger] entries[i]).0,
            (#[trigger] entries[j]).0,
        )
}

proof fn lemma_placed_at(
    entries: Seq<(Seq<char>, Tree)>,
    key: Seq<char>,
    value: Tree,
    at: int,
)
    requires
        0 <= at <= entries.len(),
        forall|j: int|
            0 <= j < at ==> (#[trigger] entries[j]).0 != key && !text::precedes(key, entries[j].0),
        at < entries.len() ==> entries[at].0 == key || text::precedes(key, entries[at].0),
    ensures
        at < entries.len() && entries[at].0 == key ==> placed(entries, key, value)
            == entries.update(at, (key, value)),
        at == entries.len() || entries[at].0 != key ==> placed(entries, key, value)
            == entries.insert(at, (key, value)),
    decreases entries.len(),
{
    if at == 0 {
        if entries.len() == 0 {
            assert(seq![(key, value)] =~= entries.insert(0, (key, value)));
        } else if entries[0].0 == key {
            assert(seq![(key, value)] + entries.drop_first() =~= entries.update(0, (key, value)));
        } else {
            assert(seq![(key, value)] + entries =~= entries.insert(0, (key, value)));
        }
    } else {
        let rest = entries.drop_first();
        assert(entries[0].0 != key && !text::precedes(key, entries[0].0));
        assert forall|j: int| 0 <= j < at - 1 implies (#[trigger] rest[j]).0 != key
            && !text::precedes(key, rest[j].0) by {
            assert(rest[j] == entries[j + 1]);
        }
        lemma_placed_at(rest, key, value, at - 1);
        if at < entries.len() && entries[at].0 == key {
            assert(seq![entries[0]] + rest.update(at - 1, (key, value)) =~= entries.update(
                at,
                (key, value),
            ));
        } else {
            assert(seq![entries[0]] + rest.insert(at - 1, (key, value)) =~= entries.insert(
                at,
                (key, value),
            ));
        }
    }
}

/// Gives `key` the value `value` in an object whose keys are in order.
fn place(object: &mut Object, key: &str, value: Json)
    ensures
        final(object)@ == placed(old(object)@, key@, value@),
{
    let n: usize = object.entries.len();
    let mut at: usize = 0;
    while at < n && !text::same_text(object.entries[at].0.as_str(), key) && !text::stands_before(
        key,
        object.entries[at].0.as_str(),
    )
        invariant
            n == object.entries@.len(),
            at <= n,
            *object == *old(object),
            forall|j: int|
                0 <= j < at ==> (#[trigger] object@[j]).0 != key@ && !text::precedes(
                    key@,
                    object@[j].0,
                ),
        decreases n - at,
    {
        at = at + 1;
    }
    let ghost before = object@;
    proof {
        lemma_placed_at(before, key@, value@, at as int);
    }
    if at < n && text::same_text(object.entries[at].0.as_str(), key) {
        object.entries.set(at, (key.to_owned(), value));
        assert(object@ =~= before.update(at as int, (key@, value@)));
    } else {
        object.entries.insert(at, (key.to_owned(), value));
        assert(object@ =~= before.insert(at as int, (key@, value@)));
    }
}

/// A JSON value with the entries of all its objects in dictionary order of their keys.
pub fn sort_object(value: &Json) -> (r: Json)
    ensures
        r@ == sorted_tree(value@),
    decreases value,
{
    match value {
        Json::Object(object) => {
            let n: usize = object.entries.len();
            let mut ordered = Object::new();
            proof {
                json::lemma_object_tree(*object);
            }
            assert(object@.take(0) =~= json::fields());
            for i in 0..n
                invariant
                    *value == Json::Object(*object),
                    n == object.entries@.len(),
                    ordered@ == sorted_entries(object@.take(i as int)),
            {
                proof {
                    json::lemma_entry_smaller(*value, i as int);
                }
                let entry: &(String, Json) = &object.entries[i];
                let inner: Json = sort_object(&entry.1);
                place(&mut ordered, entry.0.as_str(), inner);
                assert(object@.take(i + 1).drop_last() =~= object@.take(i as int));
                assert(object@.take(i + 1)[i as int] == object@[i as int]);
            }
            assert(object@.take(n as int) =~= object@);
            json::dict(ordered)
        },
        Json::Array(items) => {
            proof {
                json::lemma_array_tree(*items);
            }
            let mut ordered: Vec<Json> = Vec::new();
            for i in 0..items.len()
                invariant
                    *value == Json::Array(*items),
                    ordered@.len() == i,
                    forall|j: int|
                        0 <= j < i ==> (#[trigger] ordered@[j])@ == sorted_tree(items@[j]@),
            {
                proof {
                    json::lemma_item_smaller(*value, i as int);
                }
                ordered.push(sort_object(&items[i]));
            }
            assert(json::trees(ordered@) =~= sorted_tree(value@)->List_0);
            json::array(ordered)
        },
        _ => value.clone(),
    }
}

proof fn lemma_ascending_rest(entries: Seq<(Seq<char>, Tree)>)
    requires
        ascending(entries),
        entries.len() > 0,
    ensures
        ascending(entries.drop_first()),
        forall|j: int|
            0 <= j < entries.drop_first().len() ==> text::precedes(
                entries[0].0,
                (#[trigger] entries.drop_first()[j]).0,
            ),
{
    let rest = entries.drop_first();
    assert forall|i: int, j: int| 0 <= i < j < rest.len() implies text::precedes(
        (#[trigger] rest[i]).0,
        (#[trigger] rest[j]).0,
    ) by {
        assert(text::precedes(entries[i + 1].0, entries[j + 1].0));
    }
    assert forall|j: int| 0 <= j < rest.len() implies text::precedes(
        entries[0].0,
        (#[trigger] rest[j]).0,
    ) by {
        assert(text::precedes(entries[0].0, entries[j + 1].0));
    }
}

/// Placing keeps the order, gives the key its value and leaves the others alone.
proof fn lemma_placed(
    entries: Seq<(Seq<char>, Tree)>,
    key: Seq<char>,
    value: Tree,
    other: Seq<char>,
)
    requires
        ascending(entries),
    ensures
        ascending(placed(entries, key, value)),
        json::lookup(placed(entries, key, value), other) == if other == key {
            Some(value)
        } else {
            json::lookup(entries, other)
        },
        forall|i: int|
            0 <= i < placed(entries, key, value).len() ==> (#[trigger] placed(
                entries,
                key,
                value,
            )[i]).0 == key || exists|j: int|
                0 <= j < entries.len() && (#[trigger] entries[j]).0 == placed(
                    entries,
                    key,
                    value,
                )[i].0,
    decreases entries.len(),
{
    let after = placed(entries, key, value);
    if entries.len() == 0 {
        assert(after.drop_first() =~= entries);
    } else {
        let rest = entries.drop_first();
        lemma_ascending_rest(entries);
        if entries[0].0 == key {
            assert(after.drop_first() =~= rest);
            assert forall|i: int, j: int| 0 <= i < j < after.len() implies text::precedes(
                (#[trigger] after[i]).0,
                (#[trigger] after[j]).0,
            ) by {
                assert(text::precedes(entries[i].0, entries[j].0));
            }
            assert forall|i: int| 0 <= i < after.len() implies (#[trigger] after[i]).0 == key
                || exists|j: int| 0 <= j < entries.len() && (#[trigger] entries[j]).0
                == after[i].0 by {
                assert(entries[i].0 == after[i].0);
            }
        } else if text::precedes(key, entries[0].0) {
            assert(after.drop_first() =~= entries);
            assert forall|i: int, j: int| 0 <= i < j < after.len() implies text::precedes(
                (#[trigger] after[i]).0,
                (#[trigger] after[j]).0,
            ) by {
                if i == 0 {
                    text::lemma_precedes(key, entries[0].0, entries[j - 1].0);
                    if j > 1 {
                        assert(text::precedes(entries[0].0, entries[j - 1].0));
                    }
                } else {
                    assert(text::precedes(entries[i - 1].0, entries[j - 1].0));
                }
            }
            assert forall|i: int| 0 <= i < after.len() implies (#[trigger] after[i]).0 == key
                || exists|j: int| 0 <= j < entries.len() && (#[trigger] entries[j]).0
                == after[i].0 by {
                if i > 0 {
                    assert(entries[i - 1].0 == after[i].0);
                }
            }
        } else {
            lemma_placed(rest, key, value, other);
            let tail = placed(rest, key, value);
            text::lemma_precedes(key, entries[0].0, key);
            assert(after.drop_first() =~= tail);
            assert forall|i: int| 0 <= i < after.len() implies (#[trigger] after[i]).0 == key
                || exists|j: int| 0 <= j < entries.len() && (#[trigger] entries[j]).0
                == after[i].0 by {
                if i == 0 {
                    assert(entries[0].0 == after[0].0);
                } else {
                    assert(after[i] == tail[i - 1]);
                    if tail[i - 1].0 != key {
                        let j = choose|j: int|
                            0 <= j < rest.len() && (#[trigger] rest[j]).0 == tail[i - 1].0;
                        assert(entries[j + 1].0 == after[i].0);
                    }
                }
            }
            assert forall|i: int, j: int| 0 <= i < j < after.len() implies text::precedes(
                (#[trigger] after[i]).0,
                (#[trigger] after[j]).0,
            ) by {
                assert(after[j] == tail[j - 1]);
                if i == 0 {
                    if tail[j - 1].0 != key {
                        let k = choose|k: int|
                            0 <= k < rest.len() && (#[trigger] rest[k]).0 == tail[j - 1].0;
                        assert(text::precedes(entries[0].0, rest[k].0));
                    }
                } else {
                    assert(after[i] == tail[i - 1]);
                }
            }
        }
    }
}

/// Whether no key stands in `entries` twice.
pub open spec fn distinct_keys(entries: Seq<(Seq<char>, Tree)>) -> bool {
    forall|i: int, j: int|
        0 <= i < j < entries.len() ==> (#[trigger] entries[i]).0 != (#[trigger] entries[j]).0
}

proof fn lemma_lookup_absent(entries: Seq<(Seq<char>, Tree)>, key: Seq<char>)
    requires
        forall|j: int| 0 <= j < entries.len() ==> (#[trigger] entries[j]).0 != key,
    ensures
        json::lookup(entries, key) is None,
    decreases entries.len(),
{
    if entries.len() > 0 {
        let rest = entries.drop_first();
        assert(entries[0].0 != key);
        assert forall|j: int| 0 <= j < rest.len() implies (#[trigger] rest[j]).0 != key by {
            assert(rest[j] == entries[j + 1]);
        }
        lemma_lookup_absent(rest, key);
    }
}

proof fn lemma_lookup_last(entries: Seq<(Seq<char>, Tree)>, key: Seq<char>)
    requires
        entries.len() > 0,
        distinct_keys(entries),
    ensures
        json::lookup(entries, key) == if key == entries.last().0 {
            Some(entries.last().1)
        } else {
            json::lookup(entries.drop_last(), key)
        },
    decreases entries.len(),
{
    if entries.len() == 1 {
        assert(entries.drop_first() =~= json::fields());
        assert(entries.drop_last() =~= json::fields());
    } else {
        let rest = entries.drop_first();
        assert forall|i: int, j: int| 0 <= i < j < rest.len() implies (#[trigger] rest[i]).0 != (
        #[trigger] rest[j]).0 by {
            assert(entries[i + 1].0 != entries[j + 1].0);
        }
        lemma_lookup_last(rest, key);
        assert(rest.last() == entries.last());
        assert(rest.drop_last() =~= entries.drop_last().drop_first());
        assert(entries.drop_last()[0] == entries[0]);
        assert(entries[0].0 != entries[entries.len() - 1].0);
    }
}

/// The value of a sorted object under a key is the sorted value of the object there.
proof fn lemma_sorted_lookup(entries: Seq<(Seq<char>, Tree)>, key: Seq<char>)
    requires
        distinct_keys(entries),
    ensures
        ascending(sorted_entries(entries)),
        json::lookup(sorted_entries(entries), key) == (match json::lookup(entries, key) {
            Some(tree) => Some(sorted_tree(tree)),
            None => None,
        }),
    decreases entries.len(),
{
    if entries.len() > 0 {
        let short = entries.drop_last();
        assert forall|i: int, j: int| 0 <= i < j < short.len() implies (#[trigger] short[i]).0 != (
        #[trigger] short[j]).0 by {
            assert(entries[i].0 != entries[j].0);
        }
        lemma_sorted_lookup(short, key);
        lemma_lookup_last(entries, key);
        lemma_placed(
            sorted_entries(short),
            entries[entries.len() - 1].0,
            sorted_tree(entries[entries.len() - 1].1),
            key,
        );
    }
}

proof fn lemma_ascending_unique(a: Seq<(Seq<char>, Tree)>, b: Seq<(Seq<char>, Tree)>)
    requires
        ascending(a),
        ascending(b),
        forall|key: Seq<char>| json::lookup(a, key) == json::lookup(b, key),
    ensures
        a == b,
    decreases a.len(),
{
    if a.len() == 0 {
        if b.len() > 0 {
            assert(json::lookup(a, b[0].0) == json::lookup(b, b[0].0));
        }
        assert(a =~= b);
    } else {
        let key = a[0].0;
        assert(json::lookup(a, key) == json::lookup(b, key));
        if b.len() == 0 {
            assert(false);
        }
        lemma_ascending_rest(a);
        lemma_ascending_rest(b);
        let x = a.drop_first();
        let y = b.drop_first();
        text::lemma_precedes(key, b[0].0, key);
        if b[0].0 != key {
            if text::precedes(key, b[0].0) {
                assert forall|j: int| 0 <= j < b.len() implies (#[trigger] b[j]).0 != key by {
                    text::lemma_precedes(key, b[0].0, b[j].0);
                    text::lemma_precedes(key, key, key);
                    if j > 0 {
                        assert(text::precedes(b[0].0, b[j].0));
                    }
                }
                lemma_lookup_absent(b, key);
            } else {
                let first = b[0].0;
                assert forall|j: int| 0 <= j < a.len() implies (#[trigger] a[j]).0 != first by {
                    text::lemma_precedes(first, key, a[j].0);
                    text::lemma_precedes(first, first, first);
                    if j > 0 {
                        assert(text::precedes(a[0].0, a[j].0));
                    }
                }
                lemma_lookup_absent(a, first);
                assert(json::lookup(a, first) == json::lookup(b, first));
            }
            assert(false);
        }
        assert(a[0].1 == b[0].1);
        assert forall|other: Seq<char>| json::lookup(x, other) == json::lookup(y, other) by {
            assert(json::lookup(a, other) == json::lookup(b, other));
            if other == key {
                text::lemma_precedes(key, key, key);
                assert forall|j: int| 0 <= j < x.len() implies (#[trigger] x[j]).0 != key by {
                    assert(text::precedes(key, x[j].0));
                }
                assert forall|j: int| 0 <= j < y.len() implies (#[trigger] y[j]).0 != key by {
                    assert(text::precedes(key, y[j].0));
                }
                lemma_lookup_absent(x, key);
                lemma_lookup_absent(y, key);
            }
        }
        lemma_ascending_unique(x, y);
        assert(seq![a[0]] + x =~= a);
        assert(seq![b[0]] + y =~= b);
        assert(a[0] == b[0]);
    }
}

/// The canonical form has its keys in order and changes no value; two objects that hold
/// the same under every key have one canonical form, in whatever order they hold it.
pub proof fn law_canonical_form(a: Seq<(Seq<char>, Tree)>, b: Seq<(Seq<char>, Tree)>)
    requires
        distinct_keys(a),
        distinct_keys(b),
        forall|key: Seq<char>| json::lookup(a, key) == json::lookup(b, key),
    ensures
        ascending(sorted_entries(a)),
        forall|key: Seq<char>|
            #[trigger] json::lookup(sorted_entries(a), key) == (match json::lookup(a, key) {
                Some(tree) => Some(sorted_tree(tree)),
                None => None,
            }),
        sorted_tree(Tree::Dict(a)) == sorted_tree(Tree::Dict(b)),
{
    assert forall|key: Seq<char>|
        #[trigger] json::lookup(sorted_entries(a), key) == (match json::lookup(a, key) {
            Some(tree) => Some(sorted_tree(tree)),
            None => None,
        }) && json::lookup(sorted_entries(a), key) == json::lookup(sorted_entries(b), key) by {
        assert(json::lookup(a, key) == json::lookup(b, key));
        lemma_sorted_lookup(a, key);
        lemma_sorted_lookup(b, key);
    }
    lemma_sorted_lookup(a, Seq::<char>::empty());
    lemma_sorted_lookup(b, Seq::<char>::empty());
    lemma_ascending_unique(sorted_entries(a), sorted_entries(b));
}

/// A word behind an underscore begins with its upper-case letter in the outbound form of a key,
/// and the underscore goes; a key of one word stays as it is.
pub proof fn law_words_run_together(key: Seq<char>, word: Seq<char>)
    requires
        word.len() > 0,
        !word.contains('_'),
    ensures
        camel(word) == word,
        camel(key + seq!['_'] + word) == camel(key) + seq![text::upper(word[0])] + word.skip(1),
    decreases word.len(),
{
    lemma_camel_key(word);
    let whole = key + seq!['_'] + word;
    let short = word.drop_last();
    assert(whole.drop_last() =~= key + seq!['_'] + short);
    assert(whole.last() == word.last());
    assert(word.contains(word.last()));
    if word.len() == 1 {
        let before = key + seq!['_'];
        assert(key + seq!['_'] + short =~= before);
        assert(before.drop_last() =~= key);
        assert(before.last() == '_');
        assert(camel(before) == camel(key));
        assert(whole[whole.len() - 2] == '_');
        assert(camel(key) + seq![text::upper(word[0])] + word.skip(1) =~= camel(key).push(
            text::upper(word[0]),
        ));
    } else {
        assert forall|ch: char| short.contains(ch) implies word.contains(ch) by {
            let k = choose|k: int| 0 <= k < short.len() && short[k] == ch;
            assert(word[k] == ch);
        }
        law_words_run_together(key, short);
        assert(whole[whole.len() - 2] == word[word.len() - 2]);
        assert(word.contains(word[word.len() - 2]));
        assert((camel(key) + seq![text::upper(word[0])] + short.skip(1)).push(word.last())
            =~= camel(key) + seq![text::upper(word[0])] + word.skip(1));
    }
}

/// Only keys change in the outbound form: a value stands under the outbound form of its key,
/// where no two keys have the same; items keep their places, and everything else stays as it
/// is.
pub proof fn law_values_keep_their_keys(
    entries: Seq<(Seq<char>, Tree)>,
    items: Seq<Tree>,
    tree: Tree,
    i: int,
)
    requires
        forall|a: int, b: int|
            0 <= a < b < entries.len() ==> camel((#[trigger] entries[a]).0) != camel(
                (#[trigger] entries[b]).0,
            ),
    ensures
        0 <= i < entries.len() ==> camel_tree(Tree::Dict(entries)).field(camel(entries[i].0))
            == Some(camel_tree(entries[i].1)),
        camel_tree(Tree::List(items)) matches Tree::List(sent) && sent.len() == items.len() && (0
            <= i < items.len() ==> sent[i] == camel_tree(items[i])),
        tree is Null || tree is Bool || tree is Whole || tree is Real || tree is Text
            ==> camel_tree(tree) == tree,
    decreases entries.len(),
{
    if entries.len() > 0 {
        let n = entries.len() - 1;
        let short = entries.drop_last();
        assert(camel_tree(Tree::Dict(entries)) == Tree::Dict(camel_entries(entries)));
        assert(camel_tree(Tree::Dict(short)) == Tree::Dict(camel_entries(short)));
        if 0 <= i <= n {
            json::law_entered_values_are_found(
                camel_entries(short),
                camel(entries[n].0),
                camel_tree(entries[n].1),
                camel(entries[i].0),
            );
            if i < n {
                assert(camel(entries[i].0) != camel(entries[n].0));
                law_values_keep_their_keys(short, items, tree, i);
            }
        }
    }
}

/// A property or an account is named by its number, however that is written: as a number, as
/// a numeral, or behind its prefix.
pub proof fn law_numbers_name_resources(n: u64, field: Seq<char>, expected: Seq<char>)
    ensures
        named_resource(ResourceId::Number(n), field, "properties"@, expected) == Ok::<
            Seq<char>,
            Problem,
        >("properties/"@ + text::decimal(n as nat)),
        named_resource(
            ResourceId::Text(text::decimal(n as nat)),
            field,
            "properties"@,
            expected,
        ) == Ok::<Seq<char>, Problem>("properties/"@ + text::decimal(n as nat)),
        named_resource(
            ResourceId::Text("properties/"@ + text::decimal(n as nat)),
            field,
            "properties"@,
            expected,
        ) == Ok::<Seq<char>, Problem>("properties/"@ + text::decimal(n as nat)),
        named_resource(ResourceId::Number(n), field, "accounts"@, expected) == Ok::<
            Seq<char>,
            Problem,
        >("accounts/"@ + text::decimal(n as nat)),
        named_resource(
            ResourceId::Text(text::decimal(n as nat)),
            field,
            "accounts"@,
            expected,
        ) == Ok::<Seq<char>, Problem>("accounts/"@ + text::decimal(n as nat)),
        named_resource(
            ResourceId::Text("accounts/"@ + text::decimal(n as nat)),
            field,
            "accounts"@,
            expected,
        ) == Ok::<Seq<char>, Problem>("accounts/"@ + text::decimal(n as nat)),
{
    reveal_strlit("properties");
    reveal_strlit("properties/");
    reveal_strlit("accounts");
    reveal_strlit("accounts/");
    reveal_strlit("/");
    assert("properties"@ + "/"@ =~= "properties/"@);
    assert("accounts"@ + "/"@ =~= "accounts/"@);
    lemma_resource_name_reads_back("properties"@, n);
    lemma_resource_name_reads_back("accounts"@, n);
    text::law_decimal_reads_back(n);
    text::lemma_decimal(n as nat);
    let digits = text::decimal(n as nat);
    assert(text::is_digit(digits[0]) && text::is_digit(digits[digits.len() - 1]));
    text::law_tight_texts_are_not_trimmed(digits);
}

/// A text that holds no number names nothing, with or without the prefix.
pub proof fn law_other_texts_name_nothing(
    raw: Seq<char>,
    field: Seq<char>,
    prefix: Seq<char>,
    expected: Seq<char>,
)
    requires
        prefix.len() > 0,
    ensures
        text::is_blank(raw) ==> named_resource(
            ResourceId::Text(raw),
            field,
            prefix,
            expected,
        ) == Err::<Seq<char>, Problem>(Problem::InvalidArgument(field, "must not be empty"@)),
        !text::is_blank(raw) && text::parsed_u64(text::trim(raw)) is None && !text::begins(
            text::trim(raw),
            prefix + "/"@,
        ) ==> named_resource(ResourceId::Text(raw), field, prefix, expected) == Err::<
            Seq<char>,
            Problem,
        >(Problem::InvalidArgument(field, expected)),
        !text::is_blank(raw) && text::begins(text::trim(raw), prefix + "/"@) && text::parsed_u64(
            text::trim(raw),
        ) is None && text::parsed_u64(text::trim(raw).skip((prefix.len() + 1) as int)) is None
            ==> named_resource(ResourceId::Text(raw), field, prefix, expected) == Err::<
            Seq<char>,
            Problem,
        >(Problem::InvalidArgument(field, expected)),
{
    reveal_strlit("/");
}

/// A request brings a token as it stands in the header, or behind the word bearer in any case;
/// white space around it does not count.
pub proof fn law_tokens_are_read_from_headers(token: Seq<char>, word: Seq<char>, header: Seq<char>)
    requires
        token.len() > 0,
        !text::has_space(token),
        !word.contains(' '),
        text::lowered(word) == "bearer"@,
    ensures
        request_token(None, header) == Ok::<Option<Seq<char>>, Problem>(None),
        request_token(Some(token), header) == Ok::<Option<Seq<char>>, Problem>(Some(token)),
        token_of(word + seq![' '] + token, header) == Ok::<Seq<char>, Seq<char>>(token),
{
    reveal_strlit("bearer");
    reveal_strlit(" ");
    assert(" "@ =~= seq![' ']);
    assert(text::lowered("bearer"@) =~= "bearer"@);
    assert(!text::is_space(token[0]) && !text::is_space(token[token.len() - 1]));
    text::law_tight_texts_are_not_trimmed(token);
    text::law_first_mark_splits(word, ' ', token);
    if text::holds(token, " "@) {
        let at = choose|at: int| #[trigger] text::stands_at(token, " "@, at);
        assert(token.subrange(at, at + 1)[0] == ' ');
        assert(text::is_space(token[at]));
    }
    text::law_texts_without_marks_do_not_split(token, " "@);
}

/// A request that has to bring its token is refused without one; one that need not, goes on
/// with the server's own; and where the server's own is to be used, a token that is brought is
/// not.
pub proof fn law_tokens_come_from_their_source(header: Seq<char>, raw: Option<Seq<char>>)
    ensures
        request_token(raw, header) == Ok::<Option<Seq<char>>, Problem>(None) ==> token_choice(
            UpstreamTokenSource::RequestHeader,
            header,
            raw,
        ) == Err::<Option<Seq<char>>, Problem>(Problem::MissingRequestAccessToken(header)),
        request_token(raw, header) == Ok::<Option<Seq<char>>, Problem>(None) ==> token_choice(
            UpstreamTokenSource::RequestHeaderOrConfig,
            header,
            raw,
        ) == Ok::<Option<Seq<char>>, Problem>(None),
        request_token(raw, header) matches Ok(Some(token)) ==> token_choice(
            UpstreamTokenSource::RequestHeader,
            header,
            raw,
        ) == Ok::<Option<Seq<char>>, Problem>(Some(token)) && token_choice(
            UpstreamTokenSource::RequestHeaderOrConfig,
            header,
            raw,
        ) == Ok::<Option<Seq<char>>, Problem>(Some(token)),
        request_token(raw, header) is Ok ==> token_choice(
            UpstreamTokenSource::Config,
            header,
            raw,
        ) == Ok::<Option<Seq<char>>, Problem>(None),
        request_token(raw, header) matches Err(problem) ==> (
        problem matches Problem::MalformedRequestAccessToken(told, said) && told == header),
{
}

/// A message of up to 1,024 bytes stays as it is; a longer one is shown by its longest beginning
/// that fits, and three points.
pub proof fn law_long_messages_are_cut(message: Seq<char>)
    ensures
        text::byte_len(message) <= 1_024 ==> clipped(message) == message,
        text::byte_len(message) > 1_024 ==> clipped(message) == text::fitting(message, 1_024)
            + "..."@,
{
}

/// A header that brings no token is told apart from one that brings a wrong one: nothing comes of
/// a blank one, and a value of several words is refused unless the first is bearer.
pub proof fn law_headers_of_several_words_are_refused(
    first: Seq<char>,
    rest: Seq<char>,
    header: Seq<char>,
)
    requires
        !first.contains(' '),
        text::lowered(first) != "bearer"@,
    ensures
        token_of(first + seq![' '] + rest, header) == Err::<Seq<char>, Seq<char>>(
            if text::lowered(header) == "authorization"@ {
                "authorization header must use 'Bearer <token>' or a compact token value"@
            } else {
                "token header must be a compact token or use Bearer scheme"@
            },
        ),
{
    reveal_strlit("bearer");
    reveal_strlit("authorization");
    reveal_strlit(" ");
    assert(" "@ =~= seq![' ']);
    assert(text::lowered("bearer"@) =~= "bearer"@);
    assert(text::lowered("authorization"@) =~= "authorization"@);
    text::law_first_mark_splits(first, ' ', rest);
    let whole = first + seq![' '] + rest;
    assert(whole[first.len() as int] == ' ');
    assert(text::is_space(whole[first.len() as int]));
}

} // verus!
