//! The configuration installer: the configuration file kept for an
//! architecture is copied to the place from which the build reads it.
//!
//! The decisions are made here; looking at the disk and copying are the
//! caller's part. A copy can only be ordered for a source that was seen.

use vstd::prelude::*;
use crate::layout::{config_destination, config_destination_of, config_source, config_source_of};
use crate::registry::ArchId;
use crate::text::joined;

verus! {

/// What an installation is about, as plain sequences.
pub struct ConfigInstallView {
    pub source: Seq<char>,
    pub destination: Seq<char>,
}

/// The copy that an installation comes down to.
#[derive(Clone, Debug)]
pub struct ConfigInstall {
    /// The configuration file of the architecture.
    pub source: String,
    /// Where the build looks for its configuration.
    pub destination: String,
}

impl View for ConfigInstall {
    type V = ConfigInstallView;

    open spec fn view(&self) -> ConfigInstallView {
        ConfigInstallView { source: self.source@, destination: self.destination@ }
    }
}

/// The order to copy `source` over `destination`. Only `ConfigInstall::authorize`
/// hands one out.
#[derive(Debug)]
pub struct CopyOrder {
    source: String,
    destination: String,
}

impl View for CopyOrder {
    type V = ConfigInstallView;

    closed spec fn view(&self) -> ConfigInstallView {
        ConfigInstallView { source: self.source@, destination: self.destination@ }
    }
}

/// Why no configuration was installed.
#[derive(Clone, Debug)]
pub enum InstallError {
    /// The architecture has no configuration file.
    ConfigNotFound { path: String },
    /// The configuration file is there and could not be copied.
    CopyFailed { source: String, destination: String, reason: String },
}

/// What an installation error holds, as plain sequences.
pub enum InstallErrorView {
    ConfigNotFound { path: Seq<char> },
    CopyFailed { source: Seq<char>, destination: Seq<char>, reason: Seq<char> },
}

impl View for InstallError {
    type V = InstallErrorView;

    open spec fn view(&self) -> InstallErrorView {
        match self {
            InstallError::ConfigNotFound { path } => InstallErrorView::ConfigNotFound { path: path@ },
            InstallError::CopyFailed { source, destination, reason } => InstallErrorView::CopyFailed {
                source: source@,
                destination: destination@,
                reason: reason@,
            },
        }
    }
}

/// The installation for an architecture below `root`.
pub open spec fn install_of(root: Seq<char>, id: ArchId) -> ConfigInstallView {
    ConfigInstallView { source: config_source_of(root, id), destination: config_destination_of(root) }
}

/// What becomes of an installation once it is known whether its source is
/// there: the order to copy, or the error that names the missing file.
pub open spec fn authorize_of(install: ConfigInstallView, source_exists: bool) -> Result<
    ConfigInstallView,
    InstallErrorView,
> {
    if source_exists {
        Ok(install)
    } else {
        Err(InstallErrorView::ConfigNotFound { path: install.source })
    }
}

/// The characters of a reason, if there is one.
pub open spec fn reason_of(failure: Option<&str>) -> Option<Seq<char>> {
    match failure {
        None => None,
        Some(reason) => Some(reason@),
    }
}

/// What becomes of an order once the copy was tried: `failure` holds the
/// reason where it failed.
pub open spec fn conclude_of(order: ConfigInstallView, failure: Option<Seq<char>>) -> Result<
    (),
    InstallErrorView,
> {
    match failure {
        None => Ok(()),
        Some(reason) => Err(
            InstallErrorView::CopyFailed { source: order.source, destination: order.destination, reason },
        ),
    }
}

/// What is said of an installation error.
pub open spec fn install_message(error: InstallErrorView) -> Seq<char> {
    match error {
        InstallErrorView::ConfigNotFound { path } => "Error: config file not found: "@ + path,
        InstallErrorView::CopyFailed { source, destination, reason } => "Error: failed to copy "@
            + source + " -> "@ + destination + ": "@ + reason,
    }
}

/// What is said of a configuration that was installed.
pub open spec fn installed_message(order: ConfigInstallView) -> Seq<char> {
    "Installed config: "@ + order.source + " -> .axconfig.toml"@
}

impl ConfigInstall {
    /// The installation for the architecture `id` below `root`.
    pub fn plan(root: &str, id: ArchId) -> (r: ConfigInstall)
        ensures
            r@ == install_of(root@, id),
    {
        ConfigInstall { source: config_source(root, id), destination: config_destination(root) }
    }

    /// Authorizes the copy, given whether its source exists.
    /// A missing source is an error that names it, and no order comes about.
    pub fn authorize(self, source_exists: bool) -> (r: Result<CopyOrder, InstallError>)
        ensures
            match r {
                Ok(order) => authorize_of(self@, source_exists) == Ok::<ConfigInstallView, InstallErrorView>(
                    order@,
                ),
                Err(e) => authorize_of(self@, source_exists) == Err::<ConfigInstallView, InstallErrorView>(e@),
            },
    {
        if source_exists {
            Ok(CopyOrder { source: self.source, destination: self.destination })
        } else {
            Err(InstallError::ConfigNotFound { path: self.source })
        }
    }
}

impl CopyOrder {
    /// The file to copy.
    pub fn source(&self) -> (r: &str)
        ensures
            r@ == self@.source,
    {
        self.source.as_str()
    }

    /// The file to overwrite.
    pub fn destination(&self) -> (r: &str)
        ensures
            r@ == self@.destination,
    {
        self.destination.as_str()
    }

    /// Closes the installation once the copy was tried; `failure` holds the
    /// reason where it failed.
    pub fn conclude(&self, failure: Option<&str>) -> (r: Result<(), InstallError>)
        ensures
            match r {
                Ok(()) => conclude_of(self@, reason_of(failure)) == Ok::<(), InstallErrorView>(()),
                Err(e) => conclude_of(self@, reason_of(failure)) == Err::<(), InstallErrorView>(e@),
            },
    {
        match failure {
            None => Ok(()),
            Some(reason) => Err(
                InstallError::CopyFailed {
                    source: self.source.clone(),
                    destination: self.destination.clone(),
                    reason: reason.to_owned(),
                },
            ),
        }
    }

    /// The line that reports the installation.
    pub fn installed(&self) -> (r: String)
        ensures
            r@ == installed_message(self@),
    {
        let mut out: String = joined("Installed config: ", self.source.as_str());
        out.append(" -> .axconfig.toml");
        out
    }
}

impl InstallError {
    /// The message for the user; it names the file concerned.
    pub fn message(&self) -> (r: String)
        ensures
            r@ == install_message(self@),
    {
        match self {
            InstallError::ConfigNotFound { path } => joined("Error: config file not found: ", path.as_str()),
            InstallError::CopyFailed { source, destination, reason } => {
                let mut out: String = joined("Error: failed to copy ", source.as_str());
                out.append(" -> ");
                out.append(destination.as_str());
                out.append(": ");
                out.append(reason.as_str());
                out
            },
        }
    }
}

/// A copy is ordered exactly for a source that exists, and it is the copy
/// that was planned; for a missing source the error names that source.
pub proof fn copy_needs_its_source(install: ConfigInstallView, source_exists: bool)
    ensures
        authorize_of(install, source_exists) is Ok <==> source_exists,
        source_exists ==> authorize_of(install, source_exists) == Ok::<ConfigInstallView, InstallErrorView>(
            install,
        ),
        !source_exists ==> authorize_of(install, source_exists) == Err::<
            ConfigInstallView,
            InstallErrorView,
        >(InstallErrorView::ConfigNotFound { path: install.source }),
{
}

} // verus!
