//! Properties of the load as a whole, proved of the ghost model that the
//! executable loader is pinned to.
use vstd::prelude::*;
use crate::config::{
    conf_model, dns_fallback, spec_dns_list, spec_load, spec_mode, spec_pre, spec_session,
    spec_whoisdns, CfgModel, PeerMode, SvcConfig,
};
use crate::netaddr::SocketAddress;
use crate::settings::{find_entry, find_section, RawSettings};

verus! {

/// Loading the same well-formed settings twice yields structurally equal
/// configuration values: every field apart from the opaque whois handle
/// is a function of the settings alone.
pub proof fn lemma_load_deterministic(
    s: RawSettings,
    inifile: Seq<char>,
    c1: SvcConfig,
    c2: SvcConfig,
)
    requires
        spec_load(s, inifile) == Ok::<CfgModel, Seq<char>>(conf_model(c1)),
        spec_load(s, inifile) == Ok::<CfgModel, Seq<char>>(conf_model(c2)),
    ensures
        conf_model(c1) == conf_model(c2),
{
}

/// The address field a peer mode requires may not be omitted: when the
/// session resolves, the mode resolves, and the mode's mandatory endpoint
/// key is absent from the session section, the load fails.
pub proof fn lemma_required_endpoint_missing(
    s: RawSettings,
    inifile: Seq<char>,
    session: Seq<char>,
    mode: PeerMode,
)
    requires
        spec_session(s, inifile) == Ok::<Seq<char>, Seq<char>>(session),
        spec_mode(s, session, inifile) == Ok::<PeerMode, Seq<char>>(mode),
        ({
            let svc = find_section(s.sections@, session)->Some_0;
            match mode {
                PeerMode::BgpActive => find_entry(svc.entries@, "bgppeer"@) is None,
                PeerMode::BmpActive => find_entry(svc.entries@, "bmppeer"@) is None,
                PeerMode::BgpPassive => find_entry(svc.entries@, "protolisten"@) is None,
                PeerMode::BmpPassive => find_entry(svc.entries@, "protolisten"@) is None,
            }
        }),
    ensures
        spec_load(s, inifile) is Err,
        mode == PeerMode::BgpActive ==> spec_load(s, inifile) == Err::<CfgModel, Seq<char>>(
            "bgppeer was not specified"@,
        ),
{
    assert(spec_pre(s, inifile) is Err);
}

/// An unparsable `whoisdns` entry is dropped, never fatal: whenever the
/// key carries a value, the resolver-list stage succeeds.
pub proof fn lemma_bad_dns_entries_not_fatal(v: Seq<char>)
    ensures
        spec_whoisdns(Some(Some(v))) is Ok,
{
}

/// A `whoisdns` value whose entries are all invalid yields exactly the
/// single fallback resolver.
pub proof fn lemma_dns_fallback_when_all_invalid(v: Seq<char>)
    requires
        spec_dns_list(v).len() == 0,
    ensures
        spec_whoisdns(Some(Some(v))) == Ok::<Seq<SocketAddress>, Seq<char>>(dns_fallback()),
{
}

/// The resolver list of a loaded configuration is never empty.
pub proof fn lemma_dnses_nonempty(s: RawSettings, inifile: Seq<char>, m: CfgModel)
    requires
        spec_load(s, inifile) == Ok::<CfgModel, Seq<char>>(m),
    ensures
        m.whoisdnses.len() >= 1,
{
}

/// When the `whoisdns` key is absent, the resolver list is exactly the
/// single fallback resolver.
pub proof fn lemma_dns_fallback_when_absent(s: RawSettings, inifile: Seq<char>, m: CfgModel)
    requires
        spec_load(s, inifile) == Ok::<CfgModel, Seq<char>>(m),
        find_entry(find_section(s.sections@, "main"@)->Some_0.entries@, "whoisdns"@) is None,
    ensures
        m.whoisdnses == dns_fallback(),
{
}

} // verus!
