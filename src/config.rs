//! Service configuration, and how the backend channels are secured.
use vstd::prelude::*;

use crate::text::chars_of;

verus! {

/// The service's settings.
#[derive(Clone, Debug, PartialEq, Eq)]
pub struct AppConfig {
    pub env: String,
    pub host: String,
    pub http_port: u16,
    pub service_version: String,
    pub stt_grpc_url: String,
    pub dialog_grpc_url: String,
    pub tts_grpc_url: String,
    pub grpc_tls_ca_path: String,
    pub stream_gateway_service_cert_path: String,
    pub stream_gateway_service_key_path: String,
    pub tts_default_voice_id: String,
}

/// Whether transport security material is loaded for the backend channels.
#[derive(Clone, Copy, PartialEq, Eq, Structural, Debug)]
pub enum TlsPlan {
    /// No backend address asks for TLS.
    NotNeeded,
    /// Some backend address asks for TLS and a CA path is configured.
    Load,
    /// Some backend address asks for TLS but no CA path is configured; the
    /// channels go without TLS material.
    MissingCaPath,
}

/// How one backend channel is opened.
#[derive(Clone, Copy, PartialEq, Eq, Structural, Debug)]
pub enum ChannelSecurity {
    /// A secure address, with TLS material at hand.
    Tls,
    /// A secure address, but no TLS material: opened without it.
    InsecureFallback,
    /// A plain address.
    Plain,
}

pub open spec fn has_prefix(s: Seq<char>, p: Seq<char>) -> bool {
    p.len() <= s.len() && s.subrange(0, p.len() as int) == p
}

/// An address that asks for TLS.
pub open spec fn is_secure_url(url: Seq<char>) -> bool {
    has_prefix(url, "https"@)
}

pub fn starts_with(s: &str, p: &str) -> (r: bool)
    ensures
        r == has_prefix(s@, p@),
{
    let sc = chars_of(s);
    let pc = chars_of(p);
    if pc.len() > sc.len() {
        return false;
    }
    let mut i: usize = 0;
    while i < pc.len()
        invariant
            sc@ == s@,
            pc@ == p@,
            pc@.len() <= sc@.len(),
            i <= pc@.len(),
            sc@.subrange(0, i as int) == pc@.subrange(0, i as int),
        decreases pc@.len() - i,
    {
        if sc[i] != pc[i] {
            assert(sc@.subrange(0, pc@.len() as int)[i as int] != pc@[i as int]);
            assert(sc@.subrange(0, pc@.len() as int) != pc@);
            return false;
        }
        i = i + 1;
        assert(sc@.subrange(0, i as int) =~= sc@.subrange(0, i - 1).push(sc@[i - 1]));
        assert(pc@.subrange(0, i as int) =~= pc@.subrange(0, i - 1).push(pc@[i - 1]));
    }
    assert(pc@.subrange(0, i as int) =~= pc@);
    true
}

pub fn is_secure(url: &str) -> (r: bool)
    ensures
        r == is_secure_url(url@),
{
    starts_with(url, "https")
}

/// How a channel to `url` is opened, given whether TLS material is loaded.
pub fn channel_security(url: &str, has_tls: bool) -> (r: ChannelSecurity)
    ensures
        r == (if !is_secure_url(url@) {
            ChannelSecurity::Plain
        } else if has_tls {
            ChannelSecurity::Tls
        } else {
            ChannelSecurity::InsecureFallback
        }),
{
    if !is_secure(url) {
        ChannelSecurity::Plain
    } else if has_tls {
        ChannelSecurity::Tls
    } else {
        ChannelSecurity::InsecureFallback
    }
}

impl AppConfig {
    pub open spec fn spec_needs_tls(&self) -> bool {
        is_secure_url(self.stt_grpc_url@) || is_secure_url(self.dialog_grpc_url@)
            || is_secure_url(self.tts_grpc_url@)
    }

    /// Some backend address asks for TLS.
    pub fn needs_tls(&self) -> (r: bool)
        ensures
            r == self.spec_needs_tls(),
    {
        is_secure(self.stt_grpc_url.as_str()) || is_secure(self.dialog_grpc_url.as_str())
            || is_secure(self.tts_grpc_url.as_str())
    }

    /// Whether TLS material is to be loaded, once for all channels.
    pub fn tls_plan(&self) -> (r: TlsPlan)
        ensures
            r == (if !self.spec_needs_tls() {
                TlsPlan::NotNeeded
            } else if self.grpc_tls_ca_path@.len() > 0 {
                TlsPlan::Load
            } else {
                TlsPlan::MissingCaPath
            }),
    {
        if !self.needs_tls() {
            TlsPlan::NotNeeded
        } else if !self.grpc_tls_ca_path.as_str().is_empty() {
            TlsPlan::Load
        } else {
            TlsPlan::MissingCaPath
        }
    }
}

} // verus!
