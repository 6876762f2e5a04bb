use vstd::prelude::*;

use crate::errors::ErrorKind;
use crate::errors::TweakError;
use crate::text::chars_of;
use crate::text::equals_str;
use crate::text::string_from_chars;

verus! {

// The hosts-file blocklists are fixed data: a marker word and ten
// domains per list. The one computation around them is rendering the
// domains as a quoted PowerShell array literal.

/// The advertising domains, in the order they are written to the hosts
/// file.
pub open spec fn ads_domains() -> Seq<Seq<char>> {
    seq![
        "ads.google.com"@,
        "adservice.google.com"@,
        "adservice.google.com.tr"@,
        "doubleclick.net"@,
        "ads.yahoo.com"@,
        "ads.twitter.com"@,
        "ads.microsoft.com"@,
        "adnxs.com"@,
        "adsymptotic.com"@,
        "adsystem.com"@,
    ]
}

/// The telemetry domains, in the order they are written to the hosts
/// file; the privacy firewall blocks the same ones.
pub open spec fn telemetry_domains() -> Seq<Seq<char>> {
    seq![
        "vortex.data.microsoft.com"@,
        "vortex-win.data.microsoft.com"@,
        "telemetry.microsoft.com"@,
        "settings-win.data.microsoft.com"@,
        "watson.telemetry.microsoft.com"@,
        "oca.telemetry.microsoft.com"@,
        "sqm.telemetry.microsoft.com"@,
        "telecommand.telemetry.microsoft.com"@,
        "telecommand.telemetry.microsoft.com.nsatc.net"@,
        "wes.df.telemetry.microsoft.com"@,
    ]
}

fn push_owned(out: &mut Vec<String>, s: &str)
    ensures
        final(out)@.len() == old(out)@.len() + 1,
        forall|i: int|
            0 <= i < old(out)@.len() ==> (#[trigger] final(out)@[i]) == old(out)@[i],
        final(out)@.last()@ == s@,
{
    out.push(s.to_owned());
}

/// The marker word and domain list a blocklist key names: `ads` or
/// `telemetry`; any other key is invalid input.
pub fn hosts_blocklist_domains(list_type: &str) -> (r: Result<(String, Vec<String>), TweakError>)
    ensures
        list_type@ == "ads"@ ==> (r matches Ok(p) && p.0@ == "ADS"@ && p.1@.len()
            == ads_domains().len() && (forall|i: int|
            0 <= i < p.1@.len() ==> (#[trigger] p.1@[i])@ == ads_domains()[i])),
        list_type@ == "telemetry"@ ==> (r matches Ok(p) && p.0@ == "TELEMETRY"@ && p.1@.len()
            == telemetry_domains().len() && (forall|i: int|
            0 <= i < p.1@.len() ==> (#[trigger] p.1@[i])@ == telemetry_domains()[i])),
        list_type@ != "ads"@ && list_type@ != "telemetry"@ ==> (r matches Err(e) && e.kind
            == ErrorKind::InvalidInput),
{
    proof {
        reveal_strlit("ads");
        reveal_strlit("telemetry");
        assert("ads"@.len() == 3);
        assert("telemetry"@.len() == 9);
        assert("ads"@ != "telemetry"@);
    }
    let key = chars_of(list_type);
    if equals_str(&key, "ads") {
        let mut domains: Vec<String> = Vec::new();
        push_owned(&mut domains, "ads.google.com");
        push_owned(&mut domains, "adservice.google.com");
        push_owned(&mut domains, "adservice.google.com.tr");
        push_owned(&mut domains, "doubleclick.net");
        push_owned(&mut domains, "ads.yahoo.com");
        push_owned(&mut domains, "ads.twitter.com");
        push_owned(&mut domains, "ads.microsoft.com");
        push_owned(&mut domains, "adnxs.com");
        push_owned(&mut domains, "adsymptotic.com");
        push_owned(&mut domains, "adsystem.com");
        proof {
            assert forall|i: int| 0 <= i < domains@.len() implies (#[trigger] domains@[i])@
                == ads_domains()[i] by {
            }
        }
        Ok((String::from_str("ADS"), domains))
    } else if equals_str(&key, "telemetry") {
        let mut domains: Vec<String> = Vec::new();
        push_owned(&mut domains, "vortex.data.microsoft.com");
        push_owned(&mut domains, "vortex-win.data.microsoft.com");
        push_owned(&mut domains, "telemetry.microsoft.com");
        push_owned(&mut domains, "settings-win.data.microsoft.com");
        push_owned(&mut domains, "watson.telemetry.microsoft.com");
        push_owned(&mut domains, "oca.telemetry.microsoft.com");
        push_owned(&mut domains, "sqm.telemetry.microsoft.com");
        push_owned(&mut domains, "telecommand.telemetry.microsoft.com");
        push_owned(&mut domains, "telecommand.telemetry.microsoft.com.nsatc.net");
        push_owned(&mut domains, "wes.df.telemetry.microsoft.com");
        proof {
            assert forall|i: int| 0 <= i < domains@.len() implies (#[trigger] domains@[i])@
                == telemetry_domains()[i] by {
            }
        }
        Ok((String::from_str("TELEMETRY"), domains))
    } else {
        Err(TweakError::new(
            ErrorKind::InvalidInput,
            String::from_str("Unknown blocklist: use ads or telemetry"),
        ))
    }
}

/// The domains the privacy firewall blocks outright: the telemetry
/// list.
pub fn privacy_firewall_domains() -> (r: Vec<String>)
    ensures
        r@.len() == telemetry_domains().len(),
        forall|i: int| 0 <= i < r@.len() ==> (#[trigger] r@[i])@ == telemetry_domains()[i],
{
    let mut domains: Vec<String> = Vec::new();
    push_owned(&mut domains, "vortex.data.microsoft.com");
    push_owned(&mut domains, "vortex-win.data.microsoft.com");
    push_owned(&mut domains, "telemetry.microsoft.com");
    push_owned(&mut domains, "settings-win.data.microsoft.com");
    push_owned(&mut domains, "watson.telemetry.microsoft.com");
    push_owned(&mut domains, "oca.telemetry.microsoft.com");
    push_owned(&mut domains, "sqm.telemetry.microsoft.com");
    push_owned(&mut domains, "telecommand.telemetry.microsoft.com");
    push_owned(&mut domains, "telecommand.telemetry.microsoft.com.nsatc.net");
    push_owned(&mut domains, "wes.df.telemetry.microsoft.com");
    domains
}

/// The domains rendered as a quoted, comma-separated PowerShell array
/// literal body.
pub open spec fn quoted_list_spec(ds: Seq<Seq<char>>) -> Seq<char>
    decreases ds.len(),
{
    if ds.len() == 0 {
        Seq::empty()
    } else if ds.len() == 1 {
        seq!['"'] + ds[0] + seq!['"']
    } else {
        quoted_list_spec(ds.drop_last()) + ", "@ + seq!['"'] + ds.last() + seq!['"']
    }
}

/// Renders the domains as the quoted array-literal body spliced into a
/// hosts-blocklist script (`"a", "b", "c"`).
pub fn quoted_domain_list(domains: &Vec<String>) -> (r: String)
    ensures
        r@ == quoted_list_spec(domains@.map_values(|d: String| d@)),
{
    proof {
        reveal_strlit(", ");
    }
    let ghost ds = domains@.map_values(|d: String| d@);
    let mut out: Vec<char> = Vec::new();
    let mut i: usize = 0;
    while i < domains.len()
        invariant
            i <= domains@.len(),
            ds == domains@.map_values(|d: String| d@),
            out@ == quoted_list_spec(ds.subrange(0, i as int)),
        decreases domains@.len() - i,
    {
        proof {
            let pre = ds.subrange(0, i as int + 1);
            assert(pre.drop_last() =~= ds.subrange(0, i as int));
            assert(pre.last() == ds[i as int]);
        }
        if i > 0 {
            out.push(',');
            out.push(' ');
        }
        out.push('"');
        let d = chars_of(domains[i].as_str());
        let ghost mid = out@;
        let mut j: usize = 0;
        while j < d.len()
            invariant
                j <= d@.len(),
                out@ == mid + d@.subrange(0, j as int),
            decreases d@.len() - j,
        {
            out.push(d[j]);
            proof {
                assert(d@.subrange(0, j as int + 1) =~= d@.subrange(0, j as int).push(
                    d@[j as int],
                ));
            }
            j = j + 1;
        }
        proof {
            assert(d@.subrange(0, d@.len() as int) =~= d@);
        }
        out.push('"');
        proof {
            reveal_strlit(", ");
            let pre = ds.subrange(0, i as int + 1);
            if i == 0 {
                assert(out@ =~= quoted_list_spec(pre));
            } else {
                assert(out@ =~= quoted_list_spec(ds.subrange(0, i as int)) + ", "@ + seq!['"']
                    + ds[i as int] + seq!['"']);
                assert(out@ =~= quoted_list_spec(pre));
            }
        }
        i = i + 1;
    }
    proof {
        assert(ds.subrange(0, ds.len() as int) =~= ds);
    }
    string_from_chars(&out)
}

} // verus!
