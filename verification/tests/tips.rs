use warp_app::localization::{Catalog, CatalogBundle, LocaleId};
use warp_app::tips::{get_cloud_mode_tips, CloudModeTip, CLOUD_MODE_TIP_COUNT};

fn catalogs() -> CatalogBundle {
    CatalogBundle {
        default_locale: LocaleId::EnUs,
        catalogs: vec![
            Catalog {
                locale: LocaleId::EnUs,
                entries: vec![
                    ("terminal.ambient_agent.tip.01".to_string(), "Run agents from Slack.".to_string()),
                    ("terminal.ambient_agent.tip.40".to_string(), "Use the API.".to_string()),
                ],
            },
            Catalog {
                locale: LocaleId::ZhCn,
                entries: vec![(
                    "terminal.ambient_agent.tip.01".to_string(),
                    "从 Slack 运行 Agent。".to_string(),
                )],
            },
        ],
    }
}

#[test]
fn every_tip_has_its_text_and_link() {
    let tips = get_cloud_mode_tips(&catalogs(), LocaleId::ZhCn);
    assert_eq!(tips.len(), CLOUD_MODE_TIP_COUNT);
    assert_eq!(tips[0].description(), "从 Slack 运行 Agent。");
    assert_eq!(
        tips[0].link(),
        Some("https://docs.warp.dev/agent-platform/cloud-agents/integrations/slack".to_string())
    );
    assert_eq!(tips[3].link(), Some("https://oz.warp.dev".to_string()));
    assert_eq!(tips[8].link(), Some("https://github.com/warpdotdev/oz-agent-action".to_string()));
    assert_eq!(tips[39].description(), "Use the API.");
    // A tip without any text shows its key.
    assert_eq!(tips[11].description(), "terminal.ambient_agent.tip.12");
    assert!(tips.iter().all(|t| t.link().is_some()));
}

#[test]
fn tip_accessors() {
    let tip = CloudModeTip::new("text".to_string(), None);
    assert_eq!(tip.description(), "text");
    assert_eq!(tip.link(), None);
    assert!(tip.keystroke().is_none());
    let linked = CloudModeTip::new("more".to_string(), Some("https://docs.warp.dev".to_string()));
    assert!(linked.keystroke().is_none());
}
