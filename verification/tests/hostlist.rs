use duxcore::host::Host;
use duxcore::host::find_host_in_list;
use duxcore::host::hostlist_get_all_hosts;
use duxcore::host::hostlist_parser;
use duxcore::host::parse_host_entry;

#[test]
fn finding_hosts_in_given_list() {
    let hosts_list: Vec<Host> = vec![
        Host::from_string("10.20.30.51".into()),
        Host::from_string("10.20.30.52".into()),
        Host::from_string("10.20.30.53".into()),
    ];

    assert!(find_host_in_list(&hosts_list, &"10.20.30.51".to_string()).is_some());
    assert!(find_host_in_list(&hosts_list, &"192.168.10.25".to_string()).is_none());
}

#[test]
fn empty_hostlist_parsing() {
    let hostlist = hostlist_parser("").unwrap();
    assert!(hostlist.hosts.is_none());
}

#[test]
fn varless_hostlist_parsing() {
    let hostlist = hostlist_parser(
        "---\nhosts:\n- 10.20.30.51\n- 10.20.30.52\n- 10.20.30.53\n",
    )
    .unwrap();

    assert!(hostlist.hosts.is_some());

    let vec_hosts = hostlist.hosts.unwrap();
    assert_eq!(vec_hosts.len(), 3);

    let mut address_list: Vec<String> = Vec::new();
    address_list.push(vec_hosts[0].address.clone());
    address_list.push(vec_hosts[1].address.clone());
    address_list.push(vec_hosts[2].address.clone());
    assert!(address_list.binary_search(&"10.20.30.51".into()).is_ok());
    assert!(address_list.binary_search(&"10.20.30.52".into()).is_ok());
    assert!(address_list.binary_search(&"10.20.30.53".into()).is_ok());
    assert!(address_list.binary_search(&"192.168.10.25".into()).is_err());
}

#[test]
fn host_entry_with_inline_vars() {
    let host = parse_host_entry("10.20.30.51 [role=web, tier = front]");
    assert_eq!(host.address, "10.20.30.51");
    let vars = host.vars.unwrap();
    assert_eq!(vars.len(), 2);
    assert_eq!(vars[0], ("role".to_string(), "web".to_string()));
    assert_eq!(vars[1], ("tier".to_string(), "front".to_string()));
}

#[test]
fn grouped_hosts_accumulate_groups_and_vars() {
    let hostlist = hostlist_parser(
        "---\nvars:\n  zone: eu\ngroups:\n- name: web\n  vars:\n    port: \"80\"\n  hosts:\n  - h1\n  - h2\n- name: db\n  hosts:\n  - h1\nhosts:\n- h2 [tier=front]\n",
    )
    .unwrap();
    let hosts = hostlist.hosts.unwrap();
    assert_eq!(hosts.len(), 2);
    let h1 = &hosts[find_host_in_list(&hosts, &"h1".to_string()).unwrap()];
    let h2 = &hosts[find_host_in_list(&hosts, &"h2".to_string()).unwrap()];
    assert_eq!(h1.groups.as_ref().unwrap(), &vec!["web".to_string(), "db".to_string()]);
    // global vars first, then group vars: later entries win downstream
    let h1_vars = h1.vars.as_ref().unwrap();
    assert_eq!(
        h1_vars,
        &vec![("zone".to_string(), "eu".to_string()), ("port".to_string(), "80".to_string())]
    );
    // h2's fold: global vars, then its group's vars, then its own
    // inline vars, in that order
    let h2_vars = h2.vars.as_ref().unwrap();
    assert_eq!(
        h2_vars,
        &vec![
            ("zone".to_string(), "eu".to_string()),
            ("port".to_string(), "80".to_string()),
            ("tier".to_string(), "front".to_string()),
        ]
    );
    let all = hostlist_get_all_hosts(&duxcore::host::HostList { hosts: Some(hosts) }).unwrap();
    assert_eq!(all.len(), 2);
}
