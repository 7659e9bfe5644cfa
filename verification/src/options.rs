use vstd::prelude::*;
use vstd::string::*;

verus! {

/// TLS settings for the connection to a node: the certificate files to
/// trust in addition to the system's, and whether invalid certificates are
/// accepted.
#[derive(Debug, Clone)]
pub struct TlsConfig {
    pub cert_paths: Vec<String>,
    pub accept_invalid_certificates: bool,
}

/// The abstract value of a [`TlsConfig`].
pub ghost struct TlsConfigView {
    pub cert_paths: Seq<Seq<char>>,
    pub accept_invalid_certificates: bool,
}

/// The TLS settings that enabling TLS starts from: no extra certificate and
/// certificates checked.
pub open spec fn default_tls() -> TlsConfigView {
    TlsConfigView { cert_paths: Seq::empty(), accept_invalid_certificates: false }
}

impl View for TlsConfig {
    type V = TlsConfigView;

    open spec fn view(&self) -> TlsConfigView {
        TlsConfigView {
            cert_paths: self.cert_paths@.map_values(|p: String| p@),
            accept_invalid_certificates: self.accept_invalid_certificates,
        }
    }
}

impl Default for TlsConfig {
    fn default() -> (cfg: TlsConfig)
        ensures
            cfg@ == default_tls(),
    {
        let cfg = TlsConfig { cert_paths: Vec::new(), accept_invalid_certificates: false };
        assert(cfg@.cert_paths =~= Seq::<Seq<char>>::empty());
        cfg
    }
}

impl TlsConfig {
    /// A copy of these settings.
    pub fn duplicate(&self) -> (cfg: TlsConfig)
        ensures
            cfg@ == self@,
    {
        let mut cert_paths: Vec<String> = Vec::new();
        for i in 0..self.cert_paths.len()
            invariant
                cert_paths@.len() == i,
                i <= self.cert_paths@.len(),
                forall|j: int| 0 <= j < i ==> (#[trigger] cert_paths@[j])@ == self.cert_paths@[j]@,
        {
            cert_paths.push(self.cert_paths[i].clone());
        }
        let cfg = TlsConfig {
            cert_paths,
            accept_invalid_certificates: self.accept_invalid_certificates,
        };
        assert(cfg@.cert_paths =~= self@.cert_paths);
        cfg
    }

    /// The same settings with another choice about invalid certificates.
    pub fn accept_invalid_certificates(self, accept_invalid_certificates: bool) -> (cfg: TlsConfig)
        ensures
            cfg@ == (TlsConfigView { accept_invalid_certificates, ..self@ }),
    {
        TlsConfig { cert_paths: self.cert_paths, accept_invalid_certificates }
    }

    /// The same settings with one more certificate file to trust.
    pub fn add_cert_path(self, cert_path: String) -> (cfg: TlsConfig)
        ensures
            cfg@ == (TlsConfigView { cert_paths: self@.cert_paths.push(cert_path@), ..self@ }),
    {
        let mut cfg = self;
        cfg.cert_paths.push(cert_path);
        assert(cfg@.cert_paths =~= self@.cert_paths.push(cert_path@));
        cfg
    }
}

/// How to reach one node of an rxqlite cluster.
#[derive(Debug, Clone)]
pub struct RXQLiteConnectOptions {
    pub node_id: u64,
    pub node_host: String,
    pub node_port: u16,
    pub tls_config: Option<TlsConfig>,
}

/// The abstract value of [`RXQLiteConnectOptions`].
pub ghost struct OptionsView {
    pub node_id: u64,
    pub node_host: Seq<char>,
    pub node_port: u16,
    pub tls: Option<TlsConfigView>,
}

/// The abstract value of optional TLS settings.
pub open spec fn tls_view(t: Option<TlsConfig>) -> Option<TlsConfigView> {
    match t {
        Some(c) => Some(c@),
        None => None,
    }
}

/// The settings that an option which needs TLS works on: the current ones,
/// or the defaults when TLS is off.
pub open spec fn tls_or_default(t: Option<TlsConfigView>) -> TlsConfigView {
    match t {
        Some(c) => c,
        None => default_tls(),
    }
}

impl View for RXQLiteConnectOptions {
    type V = OptionsView;

    open spec fn view(&self) -> OptionsView {
        OptionsView {
            node_id: self.node_id,
            node_host: self.node_host@,
            node_port: self.node_port,
            tls: tls_view(self.tls_config),
        }
    }
}

/// The options that nothing has been set on: node 0 at an empty host and
/// port 0, without TLS.
pub open spec fn default_options() -> OptionsView {
    OptionsView { node_id: 0, node_host: Seq::empty(), node_port: 0, tls: None }
}

impl Default for RXQLiteConnectOptions {
    fn default() -> (o: RXQLiteConnectOptions)
        ensures
            o@ == default_options(),
    {
        RXQLiteConnectOptions {
            node_id: 0,
            node_host: String::new(),
            node_port: 0,
            tls_config: None,
        }
    }
}

/// The decimal digit `d`.
pub open spec fn digit_char(d: nat) -> char {
    if d == 0 {
        '0'
    } else if d == 1 {
        '1'
    } else if d == 2 {
        '2'
    } else if d == 3 {
        '3'
    } else if d == 4 {
        '4'
    } else if d == 5 {
        '5'
    } else if d == 6 {
        '6'
    } else if d == 7 {
        '7'
    } else if d == 8 {
        '8'
    } else {
        '9'
    }
}

/// The decimal notation of `n`, without leading zeros.
pub open spec fn decimal(n: nat) -> Seq<char>
    decreases n,
{
    if n < 10 {
        seq![digit_char(n)]
    } else {
        decimal(n / 10).push(digit_char(n % 10))
    }
}

/// The address that a connection to the node `o` is opened to: `host:port`.
pub open spec fn node_address(o: OptionsView) -> Seq<char> {
    o.node_host + seq![':'] + decimal(o.node_port as nat)
}

/// Appends the decimal notation of `n` to `s`.
fn push_decimal(s: &mut String, n: u16)
    ensures
        final(s)@ == old(s)@ + decimal(n as nat),
    decreases n,
{
    if n >= 10 {
        push_decimal(s, n / 10);
    }
    let d: usize = (n % 10) as usize;
    let digits = "0123456789";
    proof {
        reveal_strlit("0123456789");
    }
    let piece = digits.substring_char(d, d + 1);
    assert(piece@ =~= seq![digit_char(d as nat)]);
    s.append(piece);
    assert(final(s)@ =~= old(s)@ + decimal(n as nat));
}

/// The options after `use_ssl(use_ssl)`.
pub open spec fn with_ssl(o: OptionsView, use_ssl: bool) -> OptionsView {
    OptionsView { tls: if use_ssl { Some(default_tls()) } else { None }, ..o }
}

/// The options after `use_insecure_ssl(accept)`.
pub open spec fn with_insecure_ssl(o: OptionsView, accept: bool) -> OptionsView {
    OptionsView {
        tls: Some(TlsConfigView { accept_invalid_certificates: accept, ..tls_or_default(o.tls) }),
        ..o
    }
}

/// The options after `add_cert_path(path)`.
pub open spec fn with_cert_path(o: OptionsView, path: Seq<char>) -> OptionsView {
    OptionsView {
        tls: Some(
            TlsConfigView {
                cert_paths: tls_or_default(o.tls).cert_paths.push(path),
                ..tls_or_default(o.tls)
            },
        ),
        ..o
    }
}

impl RXQLiteConnectOptions {
    /// The same options for the node with id `node_id`.
    pub fn node_id(self, node_id: u64) -> (o: RXQLiteConnectOptions)
        ensures
            o@ == (OptionsView { node_id, ..self@ }),
    {
        let mut o = self;
        o.node_id = node_id;
        o
    }

    /// The same options for a node at `host`.
    pub fn host(self, host: &str) -> (o: RXQLiteConnectOptions)
        ensures
            o@ == (OptionsView { node_host: host@, ..self@ }),
    {
        let mut o = self;
        o.node_host = host.to_owned();
        o
    }

    /// The same options for a node listening on `port`.
    pub fn port(self, port: u16) -> (o: RXQLiteConnectOptions)
        ensures
            o@ == (OptionsView { node_port: port, ..self@ }),
    {
        let mut o = self;
        o.node_port = port;
        o
    }

    /// Turns TLS on, with the default settings (any certificate file added
    /// before is dropped), or off.
    pub fn use_ssl(self, use_ssl: bool) -> (o: RXQLiteConnectOptions)
        ensures
            o@ == with_ssl(self@, use_ssl),
    {
        let mut o = self;
        if use_ssl {
            let mut cfg = TlsConfig::default();
            cfg.accept_invalid_certificates = false;
            o.tls_config = Some(cfg);
        } else {
            o.tls_config = None;
        }
        o
    }

    /// Turns TLS on if it is off, and sets whether invalid certificates are
    /// accepted.
    pub fn use_insecure_ssl(self, use_insecure_ssl: bool) -> (o: RXQLiteConnectOptions)
        ensures
            o@ == with_insecure_ssl(self@, use_insecure_ssl),
    {
        let mut o = self;
        let cfg = match o.tls_config {
            Some(c) => c,
            None => TlsConfig::default(),
        };
        o.tls_config = Some(cfg.accept_invalid_certificates(use_insecure_ssl));
        o
    }

    /// Turns TLS on if it is off, and adds a certificate file to trust.
    pub fn add_cert_path(self, cert_path: String) -> (o: RXQLiteConnectOptions)
        ensures
            o@ == with_cert_path(self@, cert_path@),
    {
        let mut o = self;
        let cfg = match o.tls_config {
            Some(c) => c,
            None => TlsConfig::default(),
        };
        o.tls_config = Some(cfg.add_cert_path(cert_path));
        o
    }

    /// The same options with the given TLS settings (`None`: no TLS).
    pub fn tls_config(self, tls_config: Option<TlsConfig>) -> (o: RXQLiteConnectOptions)
        ensures
            o@ == (OptionsView { tls: tls_view(tls_config), ..self@ }),
    {
        let mut o = self;
        o.tls_config = tls_config;
        o
    }

    /// The address a connection to this node is opened to: `host:port`.
    pub fn node_addr(&self) -> (addr: String)
        ensures
            addr@ == node_address(self@),
    {
        let mut s = self.node_host.clone();
        let colon = ":";
        proof {
            reveal_strlit(":");
        }
        s.append(colon);
        push_decimal(&mut s, self.node_port);
        s
    }
}

/// The number that a string of decimal digits denotes.
pub open spec fn digits_value(s: Seq<char>) -> nat
    decreases s.len(),
{
    if s.len() == 0 {
        0
    } else {
        digits_value(s.drop_last()) * 10 + digit_value(s.last())
    }
}

/// The value of a decimal digit.
pub open spec fn digit_value(c: char) -> nat {
    if c == '1' {
        1
    } else if c == '2' {
        2
    } else if c == '3' {
        3
    } else if c == '4' {
        4
    } else if c == '5' {
        5
    } else if c == '6' {
        6
    } else if c == '7' {
        7
    } else if c == '8' {
        8
    } else if c == '9' {
        9
    } else {
        0
    }
}

/// Whether `c` is one of `0`..`9`.
pub open spec fn is_digit(c: char) -> bool {
    '0' <= c <= '9'
}

proof fn lemma_digit(d: nat)
    requires
        d < 10,
    ensures
        digit_value(digit_char(d)) == d,
        is_digit(digit_char(d)),
        digit_char(d) == '0' ==> d == 0,
{
}

/// The decimal notation of a number consists of digits, has no leading zero
/// (but for the number zero), and reads back as the number.
pub proof fn lemma_decimal(n: nat)
    ensures
        decimal(n).len() >= 1,
        forall|i: int| 0 <= i < decimal(n).len() ==> is_digit(#[trigger] decimal(n)[i]),
        decimal(n)[0] == '0' ==> n == 0,
        digits_value(decimal(n)) == n,
    decreases n,
{
    lemma_digit(n % 10);
    if n < 10 {
        assert(decimal(n).drop_last() =~= Seq::<char>::empty());
        assert(digits_value(Seq::<char>::empty()) == 0);
        assert(decimal(n).last() == digit_char(n));
        assert(n % 10 == n);
    } else {
        lemma_decimal(n / 10);
        let p = decimal(n / 10);
        assert(decimal(n).drop_last() =~= p);
        assert(decimal(n).last() == digit_char(n % 10));
        assert(digits_value(decimal(n)) == digits_value(p) * 10 + digit_value(digit_char(n % 10)));
        assert(n == (n / 10) * 10 + n % 10);
        assert(decimal(n)[0] == p[0]);
        assert forall|i: int| 0 <= i < decimal(n).len() implies is_digit(#[trigger] decimal(n)[i]) by {
            if i < p.len() {
                assert(decimal(n)[i] == p[i]);
            }
        }
    }
}

/// The address of a node ends in the port: the text after its last `:` is
/// the port's decimal notation, which reads back as the port.
pub proof fn lemma_node_address_port(o: OptionsView)
    ensures
        ({
            let a = node_address(o);
            let d = decimal(o.node_port as nat);
            &&& a.subrange(0, o.node_host.len() as int) == o.node_host
            &&& a[o.node_host.len() as int] == ':'
            &&& a.subrange(o.node_host.len() as int + 1, a.len() as int) == d
            &&& forall|i: int| o.node_host.len() < i < a.len() ==> #[trigger] a[i] != ':'
            &&& digits_value(d) == o.node_port
        }),
{
    let a = node_address(o);
    let d = decimal(o.node_port as nat);
    lemma_decimal(o.node_port as nat);
    assert(a.subrange(0, o.node_host.len() as int) =~= o.node_host);
    assert(a.subrange(o.node_host.len() as int + 1, a.len() as int) =~= d);
    assert forall|i: int| o.node_host.len() < i < a.len() implies #[trigger] a[i] != ':' by {
        assert(a[i] == d[i - o.node_host.len() - 1]);
        assert(is_digit(d[i - o.node_host.len() - 1]));
    }
}

/// Accepting invalid certificates and adding a certificate file are
/// independent: either order gives the same options.
pub proof fn lemma_insecure_and_cert_path_commute(o: OptionsView, accept: bool, path: Seq<char>)
    ensures
        with_insecure_ssl(with_cert_path(o, path), accept) == with_cert_path(
            with_insecure_ssl(o, accept),
            path,
        ),
{
}

/// Of two choices about invalid certificates the last one counts.
pub proof fn lemma_insecure_last_wins(o: OptionsView, first: bool, second: bool)
    ensures
        with_insecure_ssl(with_insecure_ssl(o, first), second) == with_insecure_ssl(o, second),
{
}

/// Turning TLS on or off twice is turning it on or off once.
pub proof fn lemma_use_ssl_idempotent(o: OptionsView, use_ssl: bool)
    ensures
        with_ssl(with_ssl(o, use_ssl), use_ssl) == with_ssl(o, use_ssl),
{
}

/// Turning TLS off is giving no TLS settings, and turning it on is giving
/// the default ones; either way what was set before about TLS is gone.
pub proof fn lemma_use_ssl_is_tls_config(o: OptionsView, use_ssl: bool, earlier: Seq<char>)
    ensures
        with_ssl(o, false) == (OptionsView { tls: None, ..o }),
        with_ssl(o, true) == (OptionsView { tls: Some(default_tls()), ..o }),
        with_ssl(with_cert_path(o, earlier), use_ssl) == with_ssl(o, use_ssl),
        with_ssl(with_insecure_ssl(o, true), use_ssl) == with_ssl(o, use_ssl),
{
}

/// The TLS options leave the node's id, host and port as they were, and
/// those that add to the TLS settings turn TLS on.
pub proof fn lemma_tls_options_keep_node(o: OptionsView, use_ssl: bool, accept: bool, path: Seq<char>)
    ensures
        node_address(with_ssl(o, use_ssl)) == node_address(o),
        node_address(with_insecure_ssl(o, accept)) == node_address(o),
        node_address(with_cert_path(o, path)) == node_address(o),
        with_ssl(o, use_ssl).node_id == o.node_id,
        with_insecure_ssl(o, accept).node_id == o.node_id,
        with_cert_path(o, path).node_id == o.node_id,
        with_insecure_ssl(o, accept).tls is Some,
        with_cert_path(o, path).tls is Some,
{
}

/// The TLS settings earlier on the options: their certificate files, none
/// when TLS is off.
pub open spec fn earlier_cert_paths(o: OptionsView) -> Seq<Seq<char>> {
    match o.tls {
        Some(c) => c.cert_paths,
        None => Seq::empty(),
    }
}

/// Adding a certificate file turns TLS on, keeps every earlier file in order
/// and appends the new one after them, however many there were, and keeps
/// the choice about invalid certificates (certificates checked when TLS was
/// off).
pub proof fn lemma_add_cert_path_appends(o: OptionsView, p: Seq<char>)
    ensures
        with_cert_path(o, p).tls is Some,
        with_cert_path(o, p).tls->Some_0.cert_paths.len() == earlier_cert_paths(o).len() + 1,
        with_cert_path(o, p).tls->Some_0.cert_paths.last() == p,
        forall|i: int|
            0 <= i < earlier_cert_paths(o).len() ==> (#[trigger] with_cert_path(
                o,
                p,
            ).tls->Some_0.cert_paths[i]) == earlier_cert_paths(o)[i],
        with_cert_path(o, p).tls->Some_0.accept_invalid_certificates == (o.tls matches Some(c)
            && c.accept_invalid_certificates),
        (OptionsView { tls: None, ..with_cert_path(o, p) }) == (OptionsView { tls: None, ..o }),
{
}

/// Choosing about invalid certificates turns TLS on with that choice and
/// keeps the certificate files (none when TLS was off); turning TLS on starts
/// from no file with certificates checked, and turning it off drops all
/// settings.
pub proof fn lemma_tls_choices_exactly(o: OptionsView, accept: bool)
    ensures
        with_insecure_ssl(o, accept).tls is Some,
        with_insecure_ssl(o, accept).tls->Some_0.accept_invalid_certificates == accept,
        with_insecure_ssl(o, accept).tls->Some_0.cert_paths == earlier_cert_paths(o),
        with_ssl(o, true).tls is Some,
        with_ssl(o, true).tls->Some_0.cert_paths.len() == 0,
        !with_ssl(o, true).tls->Some_0.accept_invalid_certificates,
        with_ssl(o, false).tls is None,
{
}

} // verus!
