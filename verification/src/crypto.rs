//! The process-wide provider of cryptography for secure transports.
//!
//! Transports over TLS need a default provider installed in the process. Installing is
//! safe to ask for any number of times: a provider that is already there counts as
//! success, whoever installed it.

use vstd::prelude::*;
use crate::error::OneIoError;
use crate::error::not_supported;
use crate::text::concat;

verus! {

/// Asks `rustls::crypto::CryptoProvider::get_default` whether the process has a default
/// provider.
///
/// Trusted: nothing is claimed of the answer, which depends on what the process has done
/// so far.
#[verifier::external_body]
fn provider_installed() -> bool {
    rustls::crypto::CryptoProvider::get_default().is_some()
}

/// Installs the provider of `rustls::crypto::aws_lc_rs::default_provider` with
/// `install_default`, and tells whether it became the default of the process.
///
/// Trusted: nothing is claimed of the answer.
#[verifier::external_body]
fn install_aws_lc() -> bool {
    rustls::crypto::aws_lc_rs::default_provider().install_default().is_ok()
}

/// Installs the provider of `rustls::crypto::ring::default_provider` with
/// `install_default`. Where it did not become the default of the process, the result is
/// the description of the provider that was turned down.
///
/// Trusted: nothing is claimed of the answer.
#[verifier::external_body]
fn install_ring() -> Result<(), String> {
    match rustls::crypto::ring::default_provider().install_default() {
        Ok(()) => Ok(()),
        Err(provider) => Err(format!("{:?}", provider)),
    }
}

/// The text of the error for a process that could be given no provider.
pub open spec fn install_failure_message(refused: Seq<char>) -> Seq<char> {
    "Failed to install rustls crypto provider: "@ + refused
}

/// Judges the last attempt to install a provider, which was turned down: where the
/// process has a provider all the same, that is success; else the attempt has failed,
/// and the error tells of the provider that was turned down.
pub fn provider_outcome(installed: bool, refused: &str) -> (r: Result<(), OneIoError>)
    ensures
        installed ==> r is Ok,
        !installed ==> r is Err && r->Err_0@ == not_supported(install_failure_message(refused@)),
{
    if installed {
        Ok(())
    } else {
        Err(OneIoError::NotSupported(concat("Failed to install rustls crypto provider: ", refused)))
    }
}

/// Ensures that the process has a default provider of cryptography. Where it has none
/// yet, the provider built on AWS-LC is installed, and the one built on ring where that
/// fails. Whenever an attempt is turned down, a provider that is there by then counts as
/// success. The only failure is a process that is left without any provider.
pub fn ensure_default_provider() -> (r: Result<(), OneIoError>)
    ensures
        r matches Err(e) ==> exists|refused: Seq<char>|
            e@ == not_supported(#[trigger] install_failure_message(refused)),
{
    let attempt = if provider_installed() {
        ProviderAttempt::AlreadyInstalled
    } else if install_aws_lc() {
        ProviderAttempt::AwsLcInstalled
    } else if provider_installed() {
        ProviderAttempt::InstalledMeanwhile
    } else {
        match install_ring() {
            Ok(()) => ProviderAttempt::RingInstalled,
            Err(refused) => ProviderAttempt::RingRefused { refused, installed: provider_installed() },
        }
    };
    provider_result(attempt)
}

/// The course of an attempt to give the process a provider: what was learned of the
/// process, in the order in which it was asked.
#[derive(Debug)]
pub enum ProviderAttempt {
    /// The process had a provider before anything was installed.
    AlreadyInstalled,
    /// The process had none, and the provider built on AWS-LC became its default.
    AwsLcInstalled,
    /// The provider built on AWS-LC was turned down, and the process had a provider by
    /// then.
    InstalledMeanwhile,
    /// The provider built on AWS-LC was turned down, the process still had none, and
    /// the provider built on ring became its default.
    RingInstalled,
    /// The provider built on ring was turned down too. `refused` describes it, and
    /// `installed` says whether the process had a provider by then.
    RingRefused { refused: String, installed: bool },
}

/// The mathematical value of a [`ProviderAttempt`].
pub enum ProviderAttemptView {
    AlreadyInstalled,
    AwsLcInstalled,
    InstalledMeanwhile,
    RingInstalled,
    RingRefused { refused: Seq<char>, installed: bool },
}

impl View for ProviderAttempt {
    type V = ProviderAttemptView;

    open spec fn view(&self) -> ProviderAttemptView {
        match self {
            ProviderAttempt::AlreadyInstalled => ProviderAttemptView::AlreadyInstalled,
            ProviderAttempt::AwsLcInstalled => ProviderAttemptView::AwsLcInstalled,
            ProviderAttempt::InstalledMeanwhile => ProviderAttemptView::InstalledMeanwhile,
            ProviderAttempt::RingInstalled => ProviderAttemptView::RingInstalled,
            ProviderAttempt::RingRefused { refused, installed } => ProviderAttemptView::RingRefused {
                refused: refused@,
                installed: *installed,
            },
        }
    }
}

/// What an attempt comes to. It succeeds wherever the process has a provider in the
/// end: one that was there before, one that came to be there while the attempt ran, or
/// one that the attempt installed. It fails only where both providers were turned down
/// and the process has none; the error then tells of the provider turned down last.
pub open spec fn spec_provider_result(attempt: ProviderAttemptView) -> Result<
    (),
    crate::error::OneIoErrorView,
> {
    match attempt {
        ProviderAttemptView::RingRefused { refused, installed } => if installed {
            Ok(())
        } else {
            Err(not_supported(install_failure_message(refused)))
        },
        _ => Ok(()),
    }
}

/// Judges an attempt to give the process a provider.
pub fn provider_result(attempt: ProviderAttempt) -> (r: Result<(), OneIoError>)
    ensures
        crate::error::result_view(r) == spec_provider_result(attempt@),
{
    match attempt {
        ProviderAttempt::RingRefused { refused, installed } => provider_outcome(
            installed,
            refused.as_str(),
        ),
        _ => Ok(()),
    }
}

} // verus!
