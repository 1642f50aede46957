use vstd::prelude::*;
use crate::config::Config;
use crate::error::ConverterError;
use crate::text::{contains, has_substring};
use s3::creds::Credentials;
use s3::Region;

verus! {

/// Declares the object store's credential set.
#[verifier::external_type_specification]
#[verifier::external_body]
pub struct ExCredentials(Credentials);

/// Declares the object store's region, which carries its endpoint.
#[verifier::external_type_specification]
#[verifier::external_body]
pub struct ExRegion(Region);

/// Relies on `Credentials::new`: when an access key is given it returns the
/// given keys at once, without looking at the environment or profiles.
#[verifier::external_body]
fn static_credentials(access_key: &str, secret_key: &str) -> (r: Result<Credentials, String>)
    ensures
        r is Ok,
{
    match Credentials::new(Some(access_key), Some(secret_key), None, None, None) {
        Ok(c) => Ok(c),
        Err(e) => Err(e.to_string()),
    }
}

/// Relies on `Region::Custom`: a region given by its name and endpoint.
#[verifier::external_body]
fn custom_region(region: String, endpoint: String) -> (r: Region) {
    Region::Custom { region, endpoint }
}

/// What the gateway needs to reach the object store.
pub struct S3Client {
    credentials: Credentials,
    region: Region,
}

impl S3Client {
    /// Builds the client from the configured keys, region and endpoint.
    pub fn new(config: &Config) -> (r: Result<S3Client, ConverterError>)
        ensures
            r is Ok,
    {
        let credentials = match static_credentials(
            config.s3_access_key.as_str(),
            config.s3_secret_key.as_str(),
        ) {
            Ok(c) => c,
            Err(msg) => {
                return Err(ConverterError::S3Error(msg));
            },
        };
        let region = custom_region(config.s3_region.clone(), config.s3_endpoint.clone());
        Ok(S3Client { credentials, region })
    }

    /// The keys that requests to the store are signed with.
    pub fn credentials(&self) -> &Credentials {
        &self.credentials
    }

    /// The store's region and endpoint.
    pub fn region(&self) -> &Region {
        &self.region
    }
}

/// How an object is named in messages: `{container}/{key}`.
pub open spec fn object_name(bucket: Seq<char>, key: Seq<char>) -> Seq<char> {
    bucket + "/"@ + key
}

/// A store failure message that reports a missing object.
pub open spec fn signals_absence(msg: Seq<char>) -> bool {
    has_substring(msg, "NoSuchKey"@) || has_substring(msg, "404"@) || has_substring(
        msg,
        "not found"@,
    )
}

/// The name of an object, for messages.
pub fn object_path(bucket: &str, key: &str) -> (r: String)
    ensures
        r@ == object_name(bucket@, key@),
{
    proof {
        reveal_strlit("/");
    }
    let mut s = String::from_str(bucket);
    s.append("/");
    s.append(key);
    s
}

/// Classifies a failed fetch by its message: absence of the object, or a
/// failure of the store.
pub fn classify_fetch_error(bucket: &str, key: &str, message: String) -> (r: ConverterError)
    ensures
        signals_absence(message@) ==> r is NotFound && r->NotFound_0@ == object_name(
            bucket@,
            key@,
        ),
        !signals_absence(message@) ==> r is S3Error && r->S3Error_0@ == message@,
{
    proof {
        reveal_strlit("NoSuchKey");
        reveal_strlit("404");
        reveal_strlit("not found");
    }
    let m = message.as_str();
    if contains(m, "NoSuchKey") || contains(m, "404") || contains(m, "not found") {
        ConverterError::NotFound(object_path(bucket, key))
    } else {
        ConverterError::S3Error(message)
    }
}

/// Checks the status of a completed fetch: 404 means the object is absent.
pub fn check_fetch_status(bucket: &str, key: &str, status: u16) -> (r: Result<(), ConverterError>)
    ensures
        r is Err <==> status == 404,
        r is Err ==> r->Err_0 is NotFound && r->Err_0->NotFound_0@ == object_name(bucket@, key@),
{
    if status == 404 {
        Err(ConverterError::NotFound(object_path(bucket, key)))
    } else {
        Ok(())
    }
}

} // verus!
