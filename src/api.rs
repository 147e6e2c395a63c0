//! The service's endpoints and request bodies.

use vstd::prelude::*;
use vstd::string::*;
use crate::text::{decimal, push_decimal};

verus! {

/// `https://<host>`
pub open spec fn origin(host: Seq<char>) -> Seq<char> {
    "https://"@ + host
}

pub open spec fn login_url_of(host: Seq<char>) -> Seq<char> {
    origin(host) + "/api/v5/account/login"@
}

pub open spec fn pin_verify_url_of(host: Seq<char>, account: u64, client: u64) -> Seq<char> {
    origin(host) + "/api/v4/account/"@ + decimal(account as nat) + "/client/"@ + decimal(
        client as nat,
    ) + "/pin/verify"@
}

pub open spec fn media_changed_url_of(
    host: Seq<char>,
    account: u64,
    since: Seq<char>,
    page: u64,
) -> Seq<char> {
    origin(host) + "/api/v1/accounts/"@ + decimal(account as nat) + "/media/changed?since="@
        + since + "&page="@ + decimal(page as nat)
}

pub open spec fn media_url_of(host: Seq<char>, media: Seq<char>) -> Seq<char> {
    origin(host) + media
}

pub open spec fn homescreen_url_of(host: Seq<char>, account: u64) -> Seq<char> {
    origin(host) + "/api/v4/accounts/"@ + decimal(account as nat) + "/homescreen"@
}

/// The local-storage root of one sync module.
pub open spec fn storage_url_of(host: Seq<char>, account: u64, network: u64, module: u64) -> Seq<
    char,
> {
    origin(host) + "/api/v1/accounts/"@ + decimal(account as nat) + "/networks/"@ + decimal(
        network as nat,
    ) + "/sync_modules/"@ + decimal(module as nat) + "/local_storage/"@
}

pub open spec fn manifest_request_url_of(
    host: Seq<char>,
    account: u64,
    network: u64,
    module: u64,
) -> Seq<char> {
    storage_url_of(host, account, network, module) + "manifest/request"@
}

pub open spec fn manifest_url_of(
    host: Seq<char>,
    account: u64,
    network: u64,
    module: u64,
    job: u64,
) -> Seq<char> {
    storage_url_of(host, account, network, module) + "manifest/"@ + decimal(job as nat)
}

pub open spec fn clip_url_of(
    host: Seq<char>,
    account: u64,
    network: u64,
    module: u64,
    manifest: u64,
    clip: u64,
) -> Seq<char> {
    storage_url_of(host, account, network, module) + "manifest/"@ + decimal(manifest as nat)
        + "/clip/request/"@ + decimal(clip as nat)
}

pub open spec fn command_url_of(host: Seq<char>, network: u64, job: u64) -> Seq<char> {
    origin(host) + "/network/"@ + decimal(network as nat) + "/command/"@ + decimal(job as nat)
}

/// The body of a PIN verification, with the PIN as typed.
pub open spec fn pin_body_of(pin: Seq<char>) -> Seq<char> {
    "{\"pin\": "@ + pin + " }"@
}

fn origin_string(host: &str) -> (r: String)
    ensures
        r@ == origin(host@),
{
    let mut r = String::from_str("https://");
    r.append(host);
    r
}

pub fn login_url(host: &str) -> (r: String)
    ensures
        r@ == login_url_of(host@),
{
    let mut r = origin_string(host);
    r.append("/api/v5/account/login");
    r
}

pub fn pin_verify_url(host: &str, account: u64, client: u64) -> (r: String)
    ensures
        r@ == pin_verify_url_of(host@, account, client),
{
    let mut r = origin_string(host);
    r.append("/api/v4/account/");
    push_decimal(&mut r, account);
    r.append("/client/");
    push_decimal(&mut r, client);
    r.append("/pin/verify");
    r
}

pub fn media_changed_url(host: &str, account: u64, since: &str, page: u64) -> (r: String)
    ensures
        r@ == media_changed_url_of(host@, account, since@, page),
{
    let mut r = origin_string(host);
    r.append("/api/v1/accounts/");
    push_decimal(&mut r, account);
    r.append("/media/changed?since=");
    r.append(since);
    r.append("&page=");
    push_decimal(&mut r, page);
    r
}

pub fn media_url(host: &str, media: &str) -> (r: String)
    ensures
        r@ == media_url_of(host@, media@),
{
    let mut r = origin_string(host);
    r.append(media);
    r
}

pub fn homescreen_url(host: &str, account: u64) -> (r: String)
    ensures
        r@ == homescreen_url_of(host@, account),
{
    let mut r = origin_string(host);
    r.append("/api/v4/accounts/");
    push_decimal(&mut r, account);
    r.append("/homescreen");
    r
}

fn storage_url(host: &str, account: u64, network: u64, module: u64) -> (r: String)
    ensures
        r@ == storage_url_of(host@, account, network, module),
{
    let mut r = origin_string(host);
    r.append("/api/v1/accounts/");
    push_decimal(&mut r, account);
    r.append("/networks/");
    push_decimal(&mut r, network);
    r.append("/sync_modules/");
    push_decimal(&mut r, module);
    r.append("/local_storage/");
    r
}

pub fn manifest_request_url(host: &str, account: u64, network: u64, module: u64) -> (r: String)
    ensures
        r@ == manifest_request_url_of(host@, account, network, module),
{
    let mut r = storage_url(host, account, network, module);
    r.append("manifest/request");
    r
}

pub fn manifest_url(host: &str, account: u64, network: u64, module: u64, job: u64) -> (r: String)
    ensures
        r@ == manifest_url_of(host@, account, network, module, job),
{
    let mut r = storage_url(host, account, network, module);
    r.append("manifest/");
    push_decimal(&mut r, job);
    r
}

pub fn clip_url(
    host: &str,
    account: u64,
    network: u64,
    module: u64,
    manifest: u64,
    clip: u64,
) -> (r: String)
    ensures
        r@ == clip_url_of(host@, account, network, module, manifest, clip),
{
    let mut r = storage_url(host, account, network, module);
    r.append("manifest/");
    push_decimal(&mut r, manifest);
    r.append("/clip/request/");
    push_decimal(&mut r, clip);
    r
}

pub fn command_url(host: &str, network: u64, job: u64) -> (r: String)
    ensures
        r@ == command_url_of(host@, network, job),
{
    let mut r = origin_string(host);
    r.append("/network/");
    push_decimal(&mut r, network);
    r.append("/command/");
    push_decimal(&mut r, job);
    r
}

pub fn pin_body(pin: &str) -> (r: String)
    ensures
        r@ == pin_body_of(pin@),
{
    let mut r = String::from_str("{\"pin\": ");
    r.append(pin);
    r.append(" }");
    r
}

} // verus!
