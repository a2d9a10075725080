//! The mail-server credentials and the transport factory: one blocking and
//! one asynchronous transport handle, both pre-authenticated and built from
//! the same credentials.

use vstd::prelude::*;

verus! {

#[verifier::external_type_specification]
#[verifier::external_body]
pub struct ExSmtpTransport(lettre::SmtpTransport);

#[verifier::external_type_specification]
#[verifier::external_body]
pub struct ExSmtpError(lettre::transport::smtp::Error);

/// The non-blocking transport handle on the tokio executor. Verus cannot
/// name lettre's executor trait, so the handle sits opaque in this struct;
/// the field stays public for the unverified side that performs the send.
#[verifier::external_body]
pub struct AsyncMailer {
    pub transport: lettre::AsyncSmtpTransport<lettre::Tokio1Executor>,
}

/// A transport factory: server address and credential pair, immutable once
/// constructed.
#[derive(Debug, Clone)]
pub struct Email {
    pub smtp_serve: String,
    pub user_name: String,
    pub password: String,
}

impl Email {
    /// Packs the relay address and the credential pair.
    pub fn new(smtp_serve: String, user_name: String, password: String) -> (r: Self)
        ensures
            r.smtp_serve@ == smtp_serve@,
            r.user_name@ == user_name@,
            r.password@ == password@,
    {
        Email { smtp_serve, user_name, password }
    }

    /// Relies on lettre's `SmtpTransport::relay`, `Credentials::new` and
    /// `SmtpTransportBuilder::{credentials, build}`: relay resolution fails
    /// only at construction, and the handle keeps the credential pair. The
    /// handle is opaque here, so nothing is claimed of it.
    #[verifier::external_body]
    pub fn builder(&self) -> Result<lettre::SmtpTransport, lettre::transport::smtp::Error> {
        match lettre::SmtpTransport::relay(self.smtp_serve.as_str()) {
            Ok(res) => {
                let creds = lettre::transport::smtp::authentication::Credentials::new(
                    self.user_name.clone(),
                    self.password.clone(),
                );
                Ok(res.credentials(creds).build())
            },
            Err(e) => Err(e),
        }
    }

    /// Relies on lettre's `AsyncSmtpTransport::<Tokio1Executor>::relay`,
    /// `Credentials::new` and `AsyncSmtpTransportBuilder::{credentials,
    /// build}`, as `builder` does for the blocking flavor.
    #[verifier::external_body]
    pub fn async_builder(&self) -> Result<AsyncMailer, lettre::transport::smtp::Error> {
        match lettre::AsyncSmtpTransport::<lettre::Tokio1Executor>::relay(
            self.smtp_serve.as_str(),
        ) {
            Ok(res) => {
                let creds = lettre::transport::smtp::authentication::Credentials::new(
                    self.user_name.clone(),
                    self.password.clone(),
                );
                Ok(AsyncMailer { transport: res.credentials(creds).build() })
            },
            Err(e) => Err(e),
        }
    }
}

} // verus!
