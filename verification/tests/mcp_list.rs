use warp_app::localization::{Catalog, CatalogBundle, LocaleId};
use warp_app::mcp_list::{
    mcp_server_info_header, mcp_server_info_header_for_locale, sorted_server_infos, MCPServerInfo,
};

fn server(uuid: u128, name: &str) -> MCPServerInfo {
    MCPServerInfo { uuid, name: name.to_string() }
}

#[test]
fn servers_are_ordered_by_uuid() {
    let sorted = sorted_server_infos(vec![
        server(3, "c"),
        server(1, "a"),
        server(u128::MAX, "z"),
        server(2, "b"),
        server(1, "a2"),
    ]);
    let names: Vec<&str> = sorted.iter().map(|s| s.name.as_str()).collect();
    assert_eq!(names, vec!["a", "a2", "b", "c", "z"]);
    assert!(sorted_server_infos(Vec::new()).is_empty());
}

#[test]
fn rows_show_the_hyphenated_uuid() {
    let row = server(0xa1a2a3a4b1b2c1c2d1d2d3d4d5d6d7d8, "figma").row();
    assert_eq!(row, vec!["a1a2a3a4-b1b2-c1c2-d1d2-d3d4d5d6d7d8", "figma"]);
    assert_eq!(server(0, "x").row()[0], "00000000-0000-0000-0000-000000000000");
}

#[test]
fn headers() {
    assert_eq!(mcp_server_info_header(), vec!["UUID", "Name"]);
    let c = CatalogBundle {
        default_locale: LocaleId::EnUs,
        catalogs: vec![Catalog {
            locale: LocaleId::ZhCn,
            entries: vec![("agent_sdk.mcp.table.name".to_string(), "名称".to_string())],
        }],
    };
    assert_eq!(
        mcp_server_info_header_for_locale(&c, LocaleId::ZhCn),
        vec!["agent_sdk.mcp.table.uuid", "名称"]
    );
}
