use vstd::prelude::*;

use crate::text::{
    contains_str, decimal, has_substring, lowercase, owned, push_decimal, push_str, same_text,
    spec_lowercase,
};

verus! {

/// A network adapter as the launcher reports it: its name, its connection
/// status and its kind (`"wifi"`, `"bluetooth"`, `"virtual"` or `"ethernet"`).
#[derive(Clone, Debug)]
pub struct AdapterInfo {
    pub name: String,
    pub status: String,
    pub adapter_type: String,
}

impl View for AdapterInfo {
    type V = (Seq<char>, Seq<char>, Seq<char>);

    open spec fn view(&self) -> (Seq<char>, Seq<char>, Seq<char>) {
        (self.name@, self.status@, self.adapter_type@)
    }
}

/// What the adapter enumeration read for one adapter: its `Name` property and its
/// `NetConnectionStatus` property, each absent when it could not be read.
#[derive(Clone, Debug)]
pub struct RawAdapter {
    pub name: Option<String>,
    pub net_connection_status: Option<u32>,
}

/// A lowercased adapter name names a wireless adapter.
pub open spec fn names_wifi(lowered: Seq<char>) -> bool {
    has_substring(lowered, "wi-fi"@) || has_substring(lowered, "wifi"@) || has_substring(
        lowered,
        "wireless"@,
    )
}

/// A lowercased adapter name names a virtual adapter (VMware, VirtualBox,
/// Hyper-V, a VPN, a bridge, ...).
pub open spec fn names_virtual(lowered: Seq<char>) -> bool {
    ||| has_substring(lowered, "vmware"@)
    ||| has_substring(lowered, "vmnet"@)
    ||| has_substring(lowered, "virtualbox"@)
    ||| has_substring(lowered, "vbox"@)
    ||| has_substring(lowered, "hyper-v"@)
    ||| has_substring(lowered, "vpn"@)
    ||| has_substring(lowered, "bridge"@)
    ||| has_substring(lowered, "virtual"@)
}

/// The kind of an adapter, from its lowercased name; the first rule that matches wins:
/// wireless, then Bluetooth, then virtual, else ethernet.
pub open spec fn kind_of_lowered(lowered: Seq<char>) -> Seq<char> {
    if names_wifi(lowered) {
        "wifi"@
    } else if has_substring(lowered, "bluetooth"@) {
        "bluetooth"@
    } else if names_virtual(lowered) {
        "virtual"@
    } else {
        "ethernet"@
    }
}

/// The kind of an adapter from its name.
pub open spec fn kind_of(name: Seq<char>) -> Seq<char> {
    kind_of_lowered(spec_lowercase(name))
}

/// The kind of an adapter is decided by keywords of its lowercased name, in this
/// order: "wi-fi", "wifi" or "wireless" make it wireless; otherwise "bluetooth" makes it
/// Bluetooth; otherwise any of "vmware", "vmnet", "virtualbox", "vbox", "hyper-v",
/// "vpn", "bridge" or "virtual" makes it virtual; any other name is ethernet. So a
/// name that contains "virtual" and none of the wireless or Bluetooth keywords is
/// always virtual, and is among the adapters disabled for a session.
pub proof fn lemma_kind_by_keywords(l: Seq<char>)
    ensures
        ({
            let wireless = has_substring(l, "wi-fi"@) || has_substring(l, "wifi"@)
                || has_substring(l, "wireless"@);
            let bluetooth = has_substring(l, "bluetooth"@);
            let virt = has_substring(l, "vmware"@) || has_substring(l, "vmnet"@)
                || has_substring(l, "virtualbox"@) || has_substring(l, "vbox"@)
                || has_substring(l, "hyper-v"@) || has_substring(l, "vpn"@)
                || has_substring(l, "bridge"@) || has_substring(l, "virtual"@);
            &&& wireless ==> kind_of_lowered(l) == "wifi"@
            &&& !wireless && bluetooth ==> kind_of_lowered(l) == "bluetooth"@
            &&& !wireless && !bluetooth && virt ==> kind_of_lowered(l) == "virtual"@
            &&& !wireless && !bluetooth && !virt ==> kind_of_lowered(l) == "ethernet"@
        }),
{
}

/// Whether the lowercased name names a wireless adapter.
pub fn is_wifi_lowered(lowered: &str) -> (b: bool)
    ensures
        b == names_wifi(lowered@),
{
    contains_str(lowered, "wi-fi") || contains_str(lowered, "wifi") || contains_str(
        lowered,
        "wireless",
    )
}

/// The kind of an adapter from its already lowercased name.
pub fn classify_lowered(lowered: &str) -> (kind: String)
    ensures
        kind@ == kind_of_lowered(lowered@),
{
    if is_wifi_lowered(lowered) {
        owned("wifi")
    } else if contains_str(lowered, "bluetooth") {
        owned("bluetooth")
    } else if contains_str(lowered, "vmware") || contains_str(lowered, "vmnet") || contains_str(
        lowered,
        "virtualbox",
    ) || contains_str(lowered, "vbox") || contains_str(lowered, "hyper-v") || contains_str(
        lowered,
        "vpn",
    ) || contains_str(lowered, "bridge") || contains_str(lowered, "virtual") {
        owned("virtual")
    } else {
        owned("ethernet")
    }
}

/// The kind of an adapter from its name, compared in lowercase.
pub fn classify_adapter(name: &str) -> (kind: String)
    ensures
        kind@ == kind_of(name@),
{
    let lowered = lowercase(name);
    classify_lowered(lowered.as_str())
}

/// The label of a `NetConnectionStatus` value; an absent or unlisted value is `"Unknown"`.
pub open spec fn status_text(code: Option<u32>) -> Seq<char> {
    match code {
        Some(0) => "Disconnected"@,
        Some(1) => "Connecting"@,
        Some(2) => "Connected"@,
        Some(7) => "Disabled"@,
        _ => "Unknown"@,
    }
}

/// The label of a `NetConnectionStatus` value.
pub fn status_label(code: Option<u32>) -> (label: String)
    ensures
        label@ == status_text(code),
{
    match code {
        Some(0) => owned("Disconnected"),
        Some(1) => owned("Connecting"),
        Some(2) => owned("Connected"),
        Some(7) => owned("Disabled"),
        _ => owned("Unknown"),
    }
}

/// The report of one adapter with the given name and status value.
pub open spec fn info_of(name: Seq<char>, code: Option<u32>) -> (Seq<char>, Seq<char>, Seq<char>) {
    (name, status_text(code), kind_of(name))
}

/// The reports of the adapters read, in order; an adapter whose name could not be
/// read is left out.
pub open spec fn infos_of(raw: Seq<RawAdapter>) -> Seq<(Seq<char>, Seq<char>, Seq<char>)>
    decreases raw.len(),
{
    if raw.len() == 0 {
        Seq::empty()
    } else {
        let before = infos_of(raw.drop_last());
        match raw.last().name {
            Some(n) => before.push(info_of(n@, raw.last().net_connection_status)),
            None => before,
        }
    }
}

/// The views of a list of adapter reports.
pub open spec fn views_of(v: Seq<AdapterInfo>) -> Seq<(Seq<char>, Seq<char>, Seq<char>)> {
    v.map_values(|a: AdapterInfo| a@)
}

/// The report of one adapter.
pub fn adapter_info(name: &String, code: Option<u32>) -> (info: AdapterInfo)
    ensures
        info@ == info_of(name@, code),
{
    AdapterInfo {
        name: name.clone(),
        status: status_label(code),
        adapter_type: classify_adapter(name.as_str()),
    }
}

/// Lists the adapters from what the enumeration read: a failed enumeration is
/// passed on as it is; otherwise each adapter with a readable name is reported
/// with its status label and kind, in the order read.
pub fn list_all_adapters(readings: Result<Vec<RawAdapter>, String>) -> (res: Result<
    Vec<AdapterInfo>,
    String,
>)
    ensures
        match readings {
            Err(e) => res matches Err(r) && r@ == e@,
            Ok(raw) => res matches Ok(v) && views_of(v@) == infos_of(raw@),
        },
{
    match readings {
        Err(e) => Err(e),
        Ok(raw) => {
            let mut out: Vec<AdapterInfo> = Vec::new();
            let n = raw.len();
            let mut i: usize = 0;
            while i < n
                invariant
                    n == raw@.len(),
                    i <= n,
                    views_of(out@) == infos_of(raw@.take(i as int)),
                decreases n - i,
            {
                assert(raw@.take(i + 1).drop_last() =~= raw@.take(i as int));
                assert(raw@.take(i + 1).last() == raw@[i as int]);
                match &raw[i].name {
                    Some(name) => {
                        let info = adapter_info(name, raw[i].net_connection_status);
                        out.push(info);
                    },
                    None => {},
                }
                assert(views_of(out@) =~= infos_of(raw@.take(i + 1)));
                i = i + 1;
            }
            assert(raw@.take(n as int) =~= raw@);
            Ok(out)
        },
    }
}

/// The names of the virtual adapters among the reports, in order.
pub open spec fn virtual_names(v: Seq<(Seq<char>, Seq<char>, Seq<char>)>) -> Seq<Seq<char>>
    decreases v.len(),
{
    if v.len() == 0 {
        Seq::empty()
    } else {
        let before = virtual_names(v.drop_last());
        if v.last().2 == "virtual"@ {
            before.push(v.last().0)
        } else {
            before
        }
    }
}

/// The views of a list of texts.
pub open spec fn texts_of(v: Seq<String>) -> Seq<Seq<char>> {
    v.map_values(|s: String| s@)
}

/// The names of the virtual adapters, for a listing that succeeded; a failed
/// listing is passed on as it is.
pub fn list_virtual_adapters(all: Result<Vec<AdapterInfo>, String>) -> (res: Result<
    Vec<String>,
    String,
>)
    ensures
        match all {
            Err(e) => res matches Err(r) && r@ == e@,
            Ok(v) => res matches Ok(names) && texts_of(names@) == virtual_names(views_of(v@)),
        },
{
    match all {
        Err(e) => Err(e),
        Ok(v) => {
            let mut names: Vec<String> = Vec::new();
            let n = v.len();
            let mut i: usize = 0;
            while i < n
                invariant
                    n == v@.len(),
                    i <= n,
                    texts_of(names@) == virtual_names(views_of(v@.take(i as int))),
                decreases n - i,
            {
                assert(views_of(v@.take(i + 1)).drop_last() =~= views_of(v@.take(i as int)));
                assert(views_of(v@.take(i + 1)).last() == v@[i as int]@);
                if same_text(v[i].adapter_type.as_str(), "virtual") {
                    names.push(v[i].name.clone());
                }
                assert(texts_of(names@) =~= virtual_names(views_of(v@.take(i + 1))));
                i = i + 1;
            }
            assert(v@.take(n as int) =~= v@);
            Ok(names)
        },
    }
}


/// The log line that describes one adapter: its name, status and kind.
pub open spec fn adapter_line(a: (Seq<char>, Seq<char>, Seq<char>)) -> Seq<char> {
    "  - "@ + a.0 + " ["@ + a.1 + "] ("@ + a.2 + ")"@
}

/// The log lines of listing the adapters: how many were found, then one line per
/// adapter, in order.
pub open spec fn listing_lines(v: Seq<(Seq<char>, Seq<char>, Seq<char>)>) -> Seq<Seq<char>> {
    seq!["list_adapters: found "@ + decimal(v.len()) + " adapter(s)"@] + v.map_values(
        |a: (Seq<char>, Seq<char>, Seq<char>)| adapter_line(a),
    )
}

/// The log lines of listing the adapters.
pub fn list_adapters(adapters: &Vec<AdapterInfo>) -> (out: Vec<String>)
    ensures
        texts_of(out@) =~= listing_lines(views_of(adapters@)),
{
    let mut out: Vec<String> = Vec::new();
    let mut head = owned("list_adapters: found ");
    push_decimal(&mut head, adapters.len() as u64);
    push_str(&mut head, " adapter(s)");
    out.push(head);
    let n = adapters.len();
    let mut i: usize = 0;
    while i < n
        invariant
            n == adapters@.len(),
            i <= n,
            texts_of(out@) =~= seq!["list_adapters: found "@ + decimal(n as nat) + " adapter(s)"@]
                + views_of(adapters@).take(i as int).map_values(
                |a: (Seq<char>, Seq<char>, Seq<char>)| adapter_line(a),
            ),
        decreases n - i,
    {
        let a = &adapters[i];
        let mut line = owned("  - ");
        push_str(&mut line, a.name.as_str());
        push_str(&mut line, " [");
        push_str(&mut line, a.status.as_str());
        push_str(&mut line, "] (");
        push_str(&mut line, a.adapter_type.as_str());
        push_str(&mut line, ")");
        let ghost before = out@;
        let ghost l = line@;
        out.push(line);
        assert(texts_of(out@) =~= texts_of(before).push(l));
        assert(views_of(adapters@).take(i + 1) =~= views_of(adapters@).take(i as int).push(
            adapters@[i as int]@,
        ));
        assert(views_of(adapters@).take(i + 1).map_values(
            |a: (Seq<char>, Seq<char>, Seq<char>)| adapter_line(a),
        ) =~= views_of(adapters@).take(i as int).map_values(
            |a: (Seq<char>, Seq<char>, Seq<char>)| adapter_line(a),
        ).push(adapter_line(adapters@[i as int]@)));
        i = i + 1;
    }
    assert(views_of(adapters@).take(n as int) =~= views_of(adapters@));
    out
}


proof fn lemma_infos_are_classified(raw: Seq<RawAdapter>)
    ensures
        forall|j: int|
            0 <= j < infos_of(raw).len() ==> #[trigger] infos_of(raw)[j].2 == kind_of(
                infos_of(raw)[j].0,
            ),
    decreases raw.len(),
{
    if raw.len() > 0 {
        let before = raw.drop_last();
        lemma_infos_are_classified(before);
        let b = infos_of(before);
        assert forall|j: int| 0 <= j < infos_of(raw).len() implies #[trigger] infos_of(raw)[j].2
            == kind_of(infos_of(raw)[j].0) by {
            if j < b.len() {
                assert(infos_of(raw)[j] == b[j]);
            }
        }
    }
}

proof fn lemma_virtual_names_come_from_virtual(v: Seq<(Seq<char>, Seq<char>, Seq<char>)>)
    ensures
        forall|k: int|
            0 <= k < virtual_names(v).len() ==> exists|j: int|
                0 <= j < v.len() && v[j].0 == #[trigger] virtual_names(v)[k] && v[j].2
                    == "virtual"@,
    decreases v.len(),
{
    if v.len() > 0 {
        let before = v.drop_last();
        lemma_virtual_names_come_from_virtual(before);
        assert forall|k: int| 0 <= k < virtual_names(v).len() implies exists|j: int|
            0 <= j < v.len() && v[j].0 == #[trigger] virtual_names(v)[k] && v[j].2
                == "virtual"@ by {
            if k < virtual_names(before).len() {
                let j = choose|j: int|
                    0 <= j < before.len() && before[j].0 == #[trigger] virtual_names(before)[k]
                        && before[j].2 == "virtual"@;
                assert(v[j] == before[j]);
            } else {
                assert(v[v.len() - 1] == v.last());
            }
        }
    }
}

/// Every virtual adapter is listed: each report whose kind is "virtual" has its name
/// among the names of the virtual adapters, so none of them is left enabled.
pub proof fn lemma_every_virtual_adapter_is_listed(v: Seq<(Seq<char>, Seq<char>, Seq<char>)>, j: int)
    requires
        0 <= j < v.len(),
        v[j].2 == "virtual"@,
    ensures
        virtual_names(v).contains(v[j].0),
    decreases v.len(),
{
    let before = v.drop_last();
    if j < v.len() - 1 {
        assert(before[j] == v[j]);
        lemma_every_virtual_adapter_is_listed(before, j);
        let k = choose|k: int| 0 <= k < virtual_names(before).len() && virtual_names(before)[k]
            == v[j].0;
        if v.last().2 == "virtual"@ {
            assert(virtual_names(v)[k] == virtual_names(before)[k]);
        }
    } else {
        assert(virtual_names(v) == virtual_names(before).push(v[j].0));
        assert(virtual_names(v)[virtual_names(before).len() as int] == v[j].0);
    }
}

/// Only virtual adapters are ever disabled: every name that the listing of virtual
/// adapters gives is the name of an adapter whose kind is "virtual", so never that of a
/// wireless, Bluetooth or ethernet adapter.
pub proof fn lemma_only_virtual_adapters_are_listed(raw: Seq<RawAdapter>)
    ensures
        forall|k: int|
            0 <= k < virtual_names(infos_of(raw)).len() ==> kind_of(
                #[trigger] virtual_names(infos_of(raw))[k],
            ) == "virtual"@,
        forall|k: int|
            0 <= k < virtual_names(infos_of(raw)).len() ==> !names_wifi(
                spec_lowercase(#[trigger] virtual_names(infos_of(raw))[k]),
            ),
{
    let v = infos_of(raw);
    lemma_infos_are_classified(raw);
    lemma_virtual_names_come_from_virtual(v);
    assert forall|k: int| 0 <= k < virtual_names(v).len() implies kind_of(
        #[trigger] virtual_names(v)[k],
    ) == "virtual"@ by {
        let j = choose|j: int|
            0 <= j < v.len() && v[j].0 == #[trigger] virtual_names(v)[k] && v[j].2 == "virtual"@;
        assert(v[j].2 == kind_of(v[j].0));
    }
    assert forall|k: int| 0 <= k < virtual_names(v).len() implies !names_wifi(
        spec_lowercase(#[trigger] virtual_names(v)[k]),
    ) by {
        assert(kind_of(virtual_names(v)[k]) == "virtual"@);
        if names_wifi(spec_lowercase(virtual_names(v)[k])) {
            assert(kind_of(virtual_names(v)[k]) == "wifi"@);
            assert("wifi"@.len() != "virtual"@.len()) by {
                reveal_strlit("wifi");
                reveal_strlit("virtual");
            }
        }
    }
}

} // verus!
