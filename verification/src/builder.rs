//! Builder integration and the runtime mutator: applying a settings
//! bundle onto a mutable client configuration, finalizing it into a
//! client, and the one supported post-construction change — replacing the
//! proxy selection as a whole-list swap.

use vstd::prelude::*;
use crate::profile::{Impersonate, spec_parse};
use crate::http2::Http2Data;
use crate::headers::HeaderTemplate;
use crate::registry::{TlsConnector, ImpersonateSettings, get_settings, spec_http2_of,
    spec_headers_of, spec_gzip, spec_brotli};
use crate::httpmap::{build_header_map, header_map_model, as_header_map, template_installable};
use crate::proxy::{Proxy, ProxyScheme, proxies_model};
use crate::error::Error;

verus! {

/// The mutable client configuration a settings bundle is applied onto.
pub struct ClientBuilder {
    pub tls_connector: Option<TlsConnector>,
    pub http2: Http2Data,
    pub headers: HeaderTemplate,
    pub gzip: bool,
    pub brotli: bool,
    pub ech_grease: bool,
    pub permute_extensions: bool,
    pub cookie_store: bool,
    pub proxies: Vec<Proxy>,
}

/// Configure the client to impersonate the given version: the bundle's
/// TLS connector, HTTP/2 fields, header template (replacing, not merging
/// with, any prior default headers) and compression flags are applied in
/// order; the builder's own toggles and proxies are untouched.
pub fn configure_impersonate(ver: Impersonate, builder: ClientBuilder) -> (b: ClientBuilder)
    ensures
        b.tls_connector matches Some(c) && c.shaped_for == ver,
        b.http2 == spec_http2_of(ver),
        b.http2.valid(),
        b.headers.wf(),
        b.headers@ == spec_headers_of(ver),
        b.gzip == spec_gzip(ver),
        b.brotli == spec_brotli(ver),
        b.ech_grease == builder.ech_grease,
        b.permute_extensions == builder.permute_extensions,
        b.cookie_store == builder.cookie_store,
        b.proxies == builder.proxies,
{
    let settings: ImpersonateSettings = get_settings(ver);
    ClientBuilder {
        tls_connector: Some(settings.tls_connector),
        http2: settings.http2,
        headers: settings.headers,
        gzip: settings.gzip,
        brotli: settings.brotli,
        ech_grease: builder.ech_grease,
        permute_extensions: builder.permute_extensions,
        cookie_store: builder.cookie_store,
        proxies: builder.proxies,
    }
}

impl ClientBuilder {
    /// A configuration with nothing applied: no connector, every HTTP/2
    /// field left to the collaborator's default, no headers, no proxies.
    pub fn new() -> (b: ClientBuilder)
        ensures
            b.tls_connector is None,
            b.http2 == (Http2Data {
                initial_stream_window_size: None,
                initial_connection_window_size: None,
                max_concurrent_streams: None,
                max_header_list_size: None,
                header_table_size: None,
                enable_push: None,
            }),
            b.headers.wf(),
            b.headers@.len() == 0,
            !b.gzip && !b.brotli,
            !b.ech_grease && !b.permute_extensions && !b.cookie_store,
            b.proxies@.len() == 0,
    {
        ClientBuilder {
            tls_connector: None,
            http2: Http2Data {
                initial_stream_window_size: None,
                initial_connection_window_size: None,
                max_concurrent_streams: None,
                max_header_list_size: None,
                header_table_size: None,
                enable_push: None,
            },
            headers: HeaderTemplate::new(),
            gzip: false,
            brotli: false,
            ech_grease: false,
            permute_extensions: false,
            cookie_store: false,
            proxies: Vec::new(),
        }
    }

    /// Select the impersonation target by identity value.
    pub fn impersonate(self, ver: Impersonate) -> (b: ClientBuilder)
        ensures
            b.tls_connector matches Some(c) && c.shaped_for == ver,
            b.http2 == spec_http2_of(ver),
            b.headers@ == spec_headers_of(ver),
            b.headers.wf(),
            b.gzip == spec_gzip(ver),
            b.brotli == spec_brotli(ver),
            b.ech_grease == self.ech_grease,
            b.permute_extensions == self.permute_extensions,
            b.cookie_store == self.cookie_store,
            b.proxies == self.proxies,
    {
        configure_impersonate(ver, self)
    }

    /// Select the impersonation target by its canonical string token; an
    /// unknown token fails with a selection error and leaves nothing
    /// configured.
    pub fn impersonate_token(self, token: &str) -> (r: Result<ClientBuilder, Error>)
        ensures
            spec_parse(token@) matches Some(ver) ==> r matches Ok(b) && b.http2 == spec_http2_of(
                ver,
            ) && b.headers@ == spec_headers_of(ver) && b.headers.wf() && (
            b.tls_connector matches Some(c) && c.shaped_for == ver) && b.gzip == spec_gzip(ver)
                && b.brotli == spec_brotli(ver) && b.ech_grease == self.ech_grease
                && b.permute_extensions == self.permute_extensions && b.cookie_store
                == self.cookie_store && b.proxies == self.proxies,
            spec_parse(token@) is None ==> r == Err::<ClientBuilder, Error>(Error::Selection),
    {
        match Impersonate::from_str(token) {
            Ok(ver) => Ok(configure_impersonate(ver, self)),
            Err(_) => Err(Error::Selection),
        }
    }

    /// Ask the TLS collaborator to emit a decoy Encrypted-Client-Hello
    /// extension; forwarded verbatim, not interpreted here.
    pub fn enable_ech_grease(self) -> (b: ClientBuilder)
        ensures
            b.ech_grease,
            b.permute_extensions == self.permute_extensions,
            b.tls_connector == self.tls_connector,
            b.http2 == self.http2,
            b.headers == self.headers,
            b.gzip == self.gzip && b.brotli == self.brotli,
            b.cookie_store == self.cookie_store,
            b.proxies == self.proxies,
    {
        ClientBuilder { ech_grease: true, ..self }
    }

    /// Ask the TLS collaborator to randomize extension order within the
    /// bounds the target profile allows; forwarded verbatim.
    pub fn permute_extensions(self) -> (b: ClientBuilder)
        ensures
            b.permute_extensions,
            b.ech_grease == self.ech_grease,
            b.tls_connector == self.tls_connector,
            b.http2 == self.http2,
            b.headers == self.headers,
            b.gzip == self.gzip && b.brotli == self.brotli,
            b.cookie_store == self.cookie_store,
            b.proxies == self.proxies,
    {
        ClientBuilder { permute_extensions: true, ..self }
    }

    /// Enable or disable the underlying client's cookie store; delegated
    /// entirely to it.
    pub fn cookie_store(self, enable: bool) -> (b: ClientBuilder)
        ensures
            b.cookie_store == enable,
            b.ech_grease == self.ech_grease,
            b.permute_extensions == self.permute_extensions,
            b.tls_connector == self.tls_connector,
            b.http2 == self.http2,
            b.headers == self.headers,
            b.gzip == self.gzip && b.brotli == self.brotli,
            b.proxies == self.proxies,
    {
        ClientBuilder { cookie_store: enable, ..self }
    }

    /// Set the initial HTTP/2 stream window size, or unset it.
    pub fn http2_initial_stream_window_size(self, v: Option<u32>) -> (b: ClientBuilder)
        ensures
            b.http2.initial_stream_window_size == v,
            b.http2.initial_connection_window_size
                == self.http2.initial_connection_window_size,
            b.http2.max_concurrent_streams == self.http2.max_concurrent_streams,
            b.http2.max_header_list_size == self.http2.max_header_list_size,
            b.http2.header_table_size == self.http2.header_table_size,
            b.http2.enable_push == self.http2.enable_push,
            b.tls_connector == self.tls_connector,
            b.headers == self.headers,
            b.gzip == self.gzip && b.brotli == self.brotli,
            b.ech_grease == self.ech_grease,
            b.permute_extensions == self.permute_extensions,
            b.cookie_store == self.cookie_store,
            b.proxies == self.proxies,
    {
        ClientBuilder {
            http2: Http2Data { initial_stream_window_size: v, ..self.http2 },
            ..self
        }
    }

    /// Set the initial HTTP/2 connection window size, or unset it.
    pub fn http2_initial_connection_window_size(self, v: Option<u32>) -> (b: ClientBuilder)
        ensures
            b.http2.initial_connection_window_size == v,
            b.http2.initial_stream_window_size == self.http2.initial_stream_window_size,
            b.http2.max_concurrent_streams == self.http2.max_concurrent_streams,
            b.http2.max_header_list_size == self.http2.max_header_list_size,
            b.http2.header_table_size == self.http2.header_table_size,
            b.http2.enable_push == self.http2.enable_push,
            b.tls_connector == self.tls_connector,
            b.headers == self.headers,
            b.gzip == self.gzip && b.brotli == self.brotli,
            b.ech_grease == self.ech_grease,
            b.permute_extensions == self.permute_extensions,
            b.cookie_store == self.cookie_store,
            b.proxies == self.proxies,
    {
        ClientBuilder {
            http2: Http2Data { initial_connection_window_size: v, ..self.http2 },
            ..self
        }
    }

    /// Finalize the configuration into a client, or report why the
    /// collaborators reject it: an out-of-range HTTP/2 value is a
    /// parameter rejection, a header entry the HTTP collaborator cannot
    /// hold is a collaborator failure.
    pub fn build(self) -> (r: Result<Client, Error>)
        ensures
            r is Ok <==> self.http2.valid() && template_installable(self.headers@)
                && self.headers@.len() <= 0x1000,
            r matches Ok(c) ==> c.spec_http2() == self.http2 && c.spec_headers() == self.headers@
                && c.spec_header_map() == as_header_map(self.headers@) && c.spec_tls() == (
            self.tls_connector, self.ech_grease, self.permute_extensions) && c.spec_flags() == (
            self.gzip, self.brotli, self.cookie_store) && c.spec_proxies() == proxies_model(
                self.proxies@,
            ),
            r matches Err(e) ==> ((e == Error::ParameterRejection) <==> !self.http2.valid()) && (e
                == Error::ParameterRejection || e == Error::Collaborator),
    {
        if !self.http2.is_valid() {
            return Err(Error::ParameterRejection);
        }
        let header_map = match build_header_map(&self.headers) {
            Some(m) => m,
            None => {
                return Err(Error::Collaborator);
            },
        };
        Ok(
            Client {
                tls_connector: self.tls_connector,
                ech_grease: self.ech_grease,
                permute_extensions: self.permute_extensions,
                http2: self.http2,
                headers: self.headers,
                header_map,
                gzip: self.gzip,
                brotli: self.brotli,
                cookie_store: self.cookie_store,
                proxies: self.proxies,
            },
        )
    }
}

/// A built client: the applied TLS, HTTP/2 and header fingerprint is
/// read-only for the client's lifetime; only the proxy selection may
/// change, and only as a whole-list swap.
pub struct Client {
    tls_connector: Option<TlsConnector>,
    ech_grease: bool,
    permute_extensions: bool,
    http2: Http2Data,
    headers: HeaderTemplate,
    header_map: http::HeaderMap,
    gzip: bool,
    brotli: bool,
    cookie_store: bool,
    proxies: Vec<Proxy>,
}

impl Client {
    /// The applied HTTP/2 parameters.
    pub closed spec fn spec_http2(&self) -> Http2Data {
        self.http2
    }

    /// The applied header template, in order.
    pub closed spec fn spec_headers(&self) -> Seq<(Seq<char>, Seq<char>)> {
        self.headers@
    }

    /// The contents of the installed default-header state.
    pub closed spec fn spec_header_map(&self) -> Map<Seq<char>, Seq<char>> {
        header_map_model(self.header_map)
    }

    /// The TLS configuration: connector handle and the two forwarded
    /// toggles.
    pub closed spec fn spec_tls(&self) -> (Option<TlsConnector>, bool, bool) {
        (self.tls_connector, self.ech_grease, self.permute_extensions)
    }

    /// The compression capabilities and the cookie-store switch.
    pub closed spec fn spec_flags(&self) -> (bool, bool, bool) {
        (self.gzip, self.brotli, self.cookie_store)
    }

    /// The current proxy selection.
    pub closed spec fn spec_proxies(&self) -> Seq<(ProxyScheme, Seq<char>)> {
        proxies_model(self.proxies@)
    }

    /// The applied HTTP/2 parameters.
    pub fn http2(&self) -> (h: Http2Data)
        ensures
            h == self.spec_http2(),
    {
        self.http2
    }

    /// The applied header template.
    pub fn headers(&self) -> (t: &HeaderTemplate)
        ensures
            t@ == self.spec_headers(),
    {
        &self.headers
    }

    /// The installed default-header state, as the HTTP collaborator sees
    /// it.
    pub fn default_headers(&self) -> (m: &http::HeaderMap)
        ensures
            header_map_model(*m) == self.spec_header_map(),
    {
        &self.header_map
    }

    /// Whether the TLS collaborator was asked for a decoy
    /// Encrypted-Client-Hello extension.
    pub fn ech_grease(&self) -> (b: bool)
        ensures
            b == self.spec_tls().1,
    {
        self.ech_grease
    }

    /// Whether the TLS collaborator was asked to permute extensions.
    pub fn permute_extensions(&self) -> (b: bool)
        ensures
            b == self.spec_tls().2,
    {
        self.permute_extensions
    }

    /// The identity the TLS connector was shaped for, if one was applied.
    pub fn tls_shaped_for(&self) -> (v: Option<Impersonate>)
        ensures
            match self.spec_tls().0 {
                Some(c) => v == Some(c.shaped_for),
                None => v is None,
            },
    {
        match &self.tls_connector {
            Some(c) => Some(c.shaped_for),
            None => None,
        }
    }

    /// The compression capabilities (gzip, brotli).
    pub fn compression(&self) -> (g: (bool, bool))
        ensures
            g.0 == self.spec_flags().0,
            g.1 == self.spec_flags().1,
    {
        (self.gzip, self.brotli)
    }

    /// Replace the proxy selection used by connection attempts that begin
    /// after this call. The list is swapped as one value — a reader sees
    /// the old list or the new one, never a mixture — and the TLS, HTTP/2
    /// and header fingerprint is untouched.
    pub fn set_proxies(&mut self, proxies: Vec<Proxy>)
        ensures
            final(self).spec_proxies() == proxies_model(proxies@),
            final(self).spec_http2() == old(self).spec_http2(),
            final(self).spec_headers() == old(self).spec_headers(),
            final(self).spec_header_map() == old(self).spec_header_map(),
            final(self).spec_tls() == old(self).spec_tls(),
            final(self).spec_flags() == old(self).spec_flags(),
    {
        self.proxies = proxies;
    }

    /// The proxy selection a connection attempt captures when it begins:
    /// a full copy of the current list. A connection that captured an
    /// earlier list keeps it across later swaps.
    pub fn proxy_snapshot(&self) -> (v: Vec<Proxy>)
        ensures
            proxies_model(v@) == self.spec_proxies(),
    {
        let n = self.proxies.len();
        let mut v: Vec<Proxy> = Vec::new();
        let mut i: usize = 0;
        while i < n
            invariant
                n == self.proxies@.len(),
                i <= n,
                v@.len() == i,
                forall|j: int| 0 <= j < i ==> v@[j]@ == self.proxies@[j]@,
            decreases n - i,
        {
            let p = Proxy {
                scheme: self.proxies[i].scheme,
                target: self.proxies[i].target.clone(),
            };
            v.push(p);
            i = i + 1;
        }
        proof {
            assert(proxies_model(v@) =~= self.spec_proxies());
        }
        v
    }
}

} // verus!
