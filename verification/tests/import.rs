use remipn::config::{Config, VpnProfile};
use remipn::import::{
    readings_for, XmlReading, choose_import, is_importable_extension, profile_from_fields, profile_from_xml,
    profiles_from_xml, search_profiles, xml_format, ImportError, XmlFormat, XmlProfile,
};

fn imported(name: &str, server: &str, protocol: &str) -> VpnProfile {
    VpnProfile {
        name: name.to_string(),
        gateway_address: server.to_string(),
        category: "Uncategorized".to_string(),
        cert_path: None,
        username: None,
        aliases: None,
        protocol: protocol.to_string(),
        auto_connect: false,
    }
}

fn raw(
    name: Option<&str>,
    name_lower: Option<&str>,
    server: Option<&str>,
    fqdn: Option<&str>,
    protocol: Option<&str>,
) -> XmlProfile {
    XmlProfile {
        name: name.map(|s| s.to_string()),
        name_lower: name_lower.map(|s| s.to_string()),
        server: server.map(|s| s.to_string()),
        fqdn: fqdn.map(|s| s.to_string()),
        protocol: protocol.map(|s| s.to_string()),
    }
}

fn some(s: &str) -> Option<String> {
    Some(s.to_string())
}

#[test]
fn formats() {
    assert_eq!(xml_format("<AzVpnProfile><VpnSettings/></AzVpnProfile>"), XmlFormat::AzVpnProfile);
    assert_eq!(xml_format("<VpnSettings><VpnProfile/></VpnSettings>"), XmlFormat::VpnSettings);
    assert_eq!(xml_format("<VpnProfile><Name>x</Name></VpnProfile>"), XmlFormat::VpnProfile);
    assert_eq!(xml_format("<ns:VpnProfile></ns:VpnProfile>"), XmlFormat::Other);
    assert_eq!(xml_format("client\nremote vpn.example.com 1194\n"), XmlFormat::Other);
    assert_eq!(xml_format(""), XmlFormat::Other);
}

#[test]
fn structured_entries_get_defaults() {
    assert_eq!(
        profile_from_xml(raw(Some("Office"), Some("office"), Some("gw1"), Some("gw2"), Some("OpenVPN"))),
        imported("Office", "gw1", "OpenVPN")
    );
    assert_eq!(
        profile_from_xml(raw(None, Some("office"), None, Some("gw2"), None)),
        imported("office", "gw2", "IKEv2")
    );
    assert_eq!(profile_from_xml(raw(None, None, None, None, None)), imported("Unnamed", "unknown", "IKEv2"));
    assert_eq!(
        profiles_from_xml(vec![raw(Some("a"), None, Some("1"), None, None), raw(Some("b"), None, None, None, None)]),
        vec![imported("a", "1", "IKEv2"), imported("b", "unknown", "IKEv2")]
    );
    assert_eq!(profiles_from_xml(Vec::new()), Vec::new());
}

#[test]
fn sections_need_name_and_server() {
    assert_eq!(profile_from_fields(some("a"), some("gw"), some("SSTP")), Some(imported("a", "gw", "SSTP")));
    assert_eq!(profile_from_fields(some("a"), some("gw"), None), Some(imported("a", "gw", "IKEv2")));
    assert_eq!(profile_from_fields(None, some("gw"), some("SSTP")), None);
    assert_eq!(profile_from_fields(some("a"), None, None), None);
    assert_eq!(profile_from_fields(None, None, None), None);
}

#[test]
fn search_finds_sections_with_namespaces() {
    let xml = "<root>\n<ns:VpnProfile id=\"1\">\n  <ns:Name>Office</ns:Name>\n  <ns:Server>gw.office.example</ns:Server>\n  <ns:Protocol>OpenVPN</ns:Protocol>\n</ns:VpnProfile>\n<ns:VpnProfile>\n  <name>home</name>\n  <fqdn>gw.home.example</fqdn>\n</ns:VpnProfile>\n<ns:VpnProfile><Name>nameless server</Name></ns:VpnProfile>\n</root>";
    assert_eq!(
        search_profiles(xml),
        vec![imported("Office", "gw.office.example", "OpenVPN"), imported("home", "gw.home.example", "IKEv2")]
    );
}

#[test]
fn search_reads_azure_client_fields() {
    let xml = "<AzVpnProfile xmlns=\"x\"><name>azure-hub</name><serverlist><ServerEntry><displayname>hub gateway</displayname><fqdn>azuregateway.vpn.azure.com</fqdn></ServerEntry></serverlist><transportprotocol>TCP</transportprotocol></AzVpnProfile>";
    assert_eq!(search_profiles(xml), vec![imported("azure-hub", "hub gateway", "TCP")]);
}

#[test]
fn search_finds_nothing_without_sections() {
    assert_eq!(search_profiles(""), Vec::new());
    assert_eq!(search_profiles("<Name>x</Name><Server>y</Server>"), Vec::new());
    assert_eq!(search_profiles("<VpnProfile><Name>x</Name>"), Vec::new());
}

#[test]
fn unknown_shape_uses_the_search_or_fails() {
    let xml = "<a:VpnProfile><a:Name>n</a:Name><a:Server>s</a:Server></a:VpnProfile>";
    assert_eq!(Config::import_from_xml(xml, Vec::new()), Ok(vec![imported("n", "s", "IKEv2")]));
    assert_eq!(
        Config::import_from_xml(xml, vec![raw(Some("ignored"), None, None, None, None)]),
        Ok(vec![imported("n", "s", "IKEv2")])
    );
    assert_eq!(Config::import_from_xml("remote vpn 1194", Vec::new()), Err(ImportError::Unsupported));
    assert_eq!(Config::import_from_xml("", Vec::new()), Err(ImportError::Unsupported));
    assert_eq!(ImportError::Unsupported.message(), "Unsupported XML format or parsing error");
}

#[test]
fn known_shape_prefers_structured_entries() {
    let xml = "<VpnSettings><VpnProfile><Name>n</Name><Server>s</Server></VpnProfile></VpnSettings>";
    assert_eq!(
        Config::import_from_xml(xml, vec![raw(Some("structured"), None, Some("gw"), None, Some("SSTP"))]),
        Ok(vec![imported("structured", "gw", "SSTP")])
    );
    assert_eq!(Config::import_from_xml(xml, Vec::new()), Ok(vec![imported("n", "s", "IKEv2")]));
}

#[test]
fn known_shape_without_profiles_gives_an_empty_list() {
    assert_eq!(Config::import_from_xml("<VpnSettings></VpnSettings>", Vec::new()), Ok(Vec::new()));
    assert_eq!(
        Config::import_from_xml("<VpnProfile><Name>only a name</Name></VpnProfile>", Vec::new()),
        Ok(Vec::new())
    );
}

#[test]
fn choice_between_structured_and_searched() {
    let searched = vec![imported("s", "gw", "IKEv2")];
    let structured = vec![raw(Some("x"), None, None, None, None)];
    assert_eq!(
        choose_import(XmlFormat::Other, false, vec![raw(Some("x"), None, None, None, None)], searched.clone()),
        Ok(searched.clone())
    );
    assert_eq!(choose_import(XmlFormat::Other, true, Vec::new(), Vec::new()), Err(ImportError::Unsupported));
    assert_eq!(
        choose_import(XmlFormat::VpnSettings, true, Vec::new(), searched.clone()),
        Ok(searched.clone())
    );
    assert_eq!(choose_import(XmlFormat::VpnSettings, false, Vec::new(), searched.clone()), Ok(Vec::new()));
    assert_eq!(
        choose_import(XmlFormat::AzVpnProfile, true, structured, searched.clone()),
        Ok(vec![imported("x", "unknown", "IKEv2")])
    );
    assert_eq!(choose_import(XmlFormat::VpnProfile, true, Vec::new(), Vec::new()), Ok(Vec::new()));
}

#[test]
fn importable_extensions() {
    assert!(is_importable_extension("xml"));
    assert!(is_importable_extension("ovpn"));
    assert!(is_importable_extension("azvpn"));
    assert!(!is_importable_extension("XML"));
    assert!(!is_importable_extension("toml"));
    assert!(!is_importable_extension(""));
}

#[test]
fn structured_readings_by_shape() {
    assert_eq!(
        readings_for(XmlFormat::AzVpnProfile),
        vec![XmlReading::ProfileList, XmlReading::SingleProfile]
    );
    assert_eq!(readings_for(XmlFormat::VpnSettings), vec![XmlReading::ProfileList]);
    assert_eq!(readings_for(XmlFormat::VpnProfile), vec![XmlReading::SingleProfile]);
    assert_eq!(readings_for(XmlFormat::Other), Vec::new());
}
