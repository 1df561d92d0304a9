//! The parts of a request URI that the pipeline reads.
use vstd::prelude::*;

verus! {

/// A request target, already split into its parts.
pub struct Uri {
    /// `https`, `http`, or another scheme; absent for a relative target.
    pub scheme: Option<String>,
    pub host: Option<String>,
    /// The port written in the URI, if any.
    pub port: Option<u16>,
    pub path: String,
    /// The whole URI as text.
    pub text: String,
}

/// The port a URI addresses: the one it names, else the scheme's default
/// (443 for `https`, 80 for `http`), else 0.
pub open spec fn port_of(scheme: Option<Seq<char>>, port: Option<u16>) -> u16 {
    match port {
        Some(p) => p,
        None => match scheme {
            Some(s) => if s == "https"@ {
                443
            } else if s == "http"@ {
                80
            } else {
                0
            },
            None => 0,
        },
    }
}

pub open spec fn scheme_view(scheme: Option<String>) -> Option<Seq<char>> {
    match scheme {
        Some(s) => Some(s@),
        None => None,
    }
}

/// The fields a call's tracing span is opened with.
pub struct PeerInfo {
    /// The peer's host name; empty where the URI names none.
    pub host: String,
    pub port: u16,
    /// The path, as the route.
    pub route: String,
    /// The whole URI.
    pub url: String,
}

impl Uri {
    /// The port this URI addresses.
    pub fn effective_port(&self) -> (r: u16)
        ensures
            r == port_of(scheme_view(self.scheme), self.port),
    {
        match self.port {
            Some(p) => p,
            None => match &self.scheme {
                Some(s) => {
                    let https = "https".to_owned();
                    let http = "http".to_owned();
                    if *s == https {
                        443
                    } else if *s == http {
                        80
                    } else {
                        0
                    }
                },
                None => 0,
            },
        }
    }

    /// The tracing fields for a call to this URI.
    pub fn peer_info(&self) -> (r: PeerInfo)
        ensures
            r.host@ == match self.host {
                Some(h) => h@,
                None => Seq::<char>::empty(),
            },
            r.port == port_of(scheme_view(self.scheme), self.port),
            r.route@ == self.path@,
            r.url@ == self.text@,
    {
        let host = match &self.host {
            Some(h) => h.clone(),
            None => String::new(),
        };
        PeerInfo {
            host,
            port: self.effective_port(),
            route: self.path.clone(),
            url: self.text.clone(),
        }
    }
}

} // verus!
