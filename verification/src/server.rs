//! The server state: bind options, QR format, and the file registry,
//! with the construction of download and QR-page URLs.

use vstd::prelude::*;

use crate::config::{Config, ImageOptions, BindOptions};
use crate::errors::Error;
use crate::net::{host_text, spec_host_text, HostAddr};
use crate::registry::{
    spec_init_outcome, spec_lookup_path, InitOutcome, PathCandidate, Registry,
};
use crate::url::{compose_url, spec_url};

verus! {

/// A file designated either by its digest key or by its canonical path.
pub enum FileRef {
    ByDigest(String),
    ByPath(String),
}

/// The server: where it binds, which QR image format it produces, and
/// the registry of files it serves.
pub struct Server {
    pub bind: BindOptions,
    pub qr: ImageOptions,
    pub registry: Registry,
}

impl Server {
    /// The URL under which the file with digest key `d` is reachable
    /// over the given namespace.
    pub open spec fn spec_digest_url(
        self,
        namespace: Seq<char>,
        d: Seq<char>,
        interfaces: Seq<HostAddr>,
    ) -> Seq<char> {
        spec_url(
            "http"@,
            spec_host_text(self.bind.spec_primary_host(interfaces)),
            self.bind.spec_port(),
            namespace,
            d,
        )
    }

    /// The URL under which `file` can be fetched, over the given
    /// namespace: the digest is taken as given, or looked up for a
    /// path, and nothing is returned for a path without a digest.
    pub open spec fn spec_url_for(
        self,
        namespace: Seq<char>,
        file: FileRef,
        interfaces: Seq<HostAddr>,
    ) -> Option<Seq<char>> {
        match file {
            FileRef::ByDigest(d) => Some(self.spec_digest_url(namespace, d@, interfaces)),
            FileRef::ByPath(p) => match spec_lookup_path(self.registry.spec_entries(), p@) {
                Some(d) => Some(self.spec_digest_url(namespace, d, interfaces)),
                None => None,
            },
        }
    }

    /// Validate the configuration and candidate paths into a server.
    /// The registry decides which candidates are accepted; the bind
    /// options and the image format are carried over unchanged.
    pub fn new(config: Config, candidates: &Vec<PathCandidate>) -> (r: Result<Server, Error>)
        ensures
            match r {
                Ok(s) => {
                    &&& spec_init_outcome(candidates@, config.spec_strict())
                        == (InitOutcome::Accepted { pending: s.registry.spec_pending() })
                    &&& s.registry.spec_entries() == Seq::<(Seq<char>, Seq<char>)>::empty()
                    &&& s.registry.wf()
                    &&& s.bind == config.bind
                    &&& s.qr == config.spec_image()
                },
                Err(e) => match e {
                    Error::InvalidFile(p) => spec_init_outcome(candidates@, config.spec_strict())
                        == (InitOutcome::Rejected { supplied: p@ }),
                    Error::NoFiles => spec_init_outcome(
                        candidates@,
                        config.spec_strict(),
                    ) is NoValidPaths,
                    _ => false,
                },
            },
    {
        let qr = config.image();
        let strict = config.is_strict();
        match Registry::new(candidates, strict) {
            Ok(registry) => Ok(Server { bind: config.bind, qr, registry }),
            Err(e) => Err(e),
        }
    }

    /// Queue additional candidate paths for serving; one that failed
    /// canonicalization is skipped.
    pub fn enqueue(&mut self, files: &Vec<PathCandidate>)
        ensures
            final(self).registry.spec_pending() == old(self).registry.spec_pending()
                + crate::registry::spec_canon_seq(files@),
            final(self).registry.entries == old(self).registry.entries,
            final(self).bind == old(self).bind,
            final(self).qr == old(self).qr,
    {
        self.registry.enqueue(files);
    }

    /// The digest recorded for a canonical path, if any.
    pub fn query_digest(&self, path: &str) -> (r: Option<String>)
        ensures
            match r {
                Some(d) => spec_lookup_path(self.registry.spec_entries(), path@) == Some(d@),
                None => spec_lookup_path(self.registry.spec_entries(), path@) is None,
            },
    {
        self.registry.query_digest(path)
    }

    /// The download URL for a file, `http://host:port/sha512/?h=digest`,
    /// or nothing for a path that has no recorded digest.
    pub fn file_url(&self, file: &FileRef, interfaces: &Vec<HostAddr>) -> (r: Option<String>)
        ensures
            match r {
                Some(u) => self.spec_url_for("sha512"@, *file, interfaces@) == Some(u@),
                None => self.spec_url_for("sha512"@, *file, interfaces@) is None,
            },
    {
        self.url_for("sha512", file, interfaces)
    }

    /// The QR-page URL for a file, `http://host:port/qr/sha512/?h=digest`,
    /// or nothing for a path that has no recorded digest.
    pub fn qr_url(&self, file: &FileRef, interfaces: &Vec<HostAddr>) -> (r: Option<String>)
        ensures
            match r {
                Some(u) => self.spec_url_for("qr/sha512"@, *file, interfaces@) == Some(u@),
                None => self.spec_url_for("qr/sha512"@, *file, interfaces@) is None,
            },
    {
        self.url_for("qr/sha512", file, interfaces)
    }

    /// Build the URL of `file` under `namespace`.
    fn url_for(&self, namespace: &str, file: &FileRef, interfaces: &Vec<HostAddr>) -> (r: Option<
        String,
    >)
        ensures
            match r {
                Some(u) => self.spec_url_for(namespace@, *file, interfaces@) == Some(u@),
                None => self.spec_url_for(namespace@, *file, interfaces@) is None,
            },
    {
        let host = self.bind.primary_host(interfaces);
        let host_str = host_text(&host);
        let port = self.bind.port();
        match file {
            FileRef::ByDigest(d) => Some(
                compose_url("http", host_str.as_str(), port, namespace, d.as_str()),
            ),
            FileRef::ByPath(p) => match self.registry.query_digest(p.as_str()) {
                Some(d) => Some(
                    compose_url("http", host_str.as_str(), port, namespace, d.as_str()),
                ),
                None => None,
            },
        }
    }
}

} // verus!
