use rust_discord_bot::config::Config;
use rust_discord_bot::ImageGenerator;

fn config() -> Config {
    Config {
        root_dir: ".".to_string(),
        data_dir: "data".to_string(),
        fastgpt_api_url: String::new(),
        fastgpt_auth_token: String::new(),
        image_output_dir: "data/pic".to_string(),
        font_paths: vec![],
        font_size: 24,
        padding: 30,
        discord_token: String::new(),
        discord_channel_whitelist: vec![],
        session_expiry: 0,
        api_concurrency_limit: 1,
    }
}

#[test]
fn markdown_to_html_basic() {
    let config = config();
    let gen = ImageGenerator::new(&config).expect("创建 ImageGenerator 失败");
    let html = gen.markdown_to_html("# Hello\n\nWorld", None, ".");
    assert!(html.contains("<h1>Hello</h1>"), "应包含 H1 标记");
    assert!(html.contains("<p>World</p>"), "应包含段落标记");
    assert!(html.contains("<style>"), "应包含样式标签");
}

#[test]
fn page_uses_configured_sizes_and_font() {
    let gen = ImageGenerator::new(&config()).unwrap();
    let html = gen.markdown_to_html("~~gone~~", Some("fonts/a.ttf"), "/home/bot");
    assert!(html.contains("url('file:///home/bot/fonts/a.ttf')"));
    assert!(html.contains("padding: 30px;"));
    assert!(html.contains("font-size: 24px;"));
    assert!(html.contains("font-size: 22px;"));
    assert!(html.contains("font-family: 'LXGW WenKai', 'Microsoft YaHei', 'SimHei', sans-serif;"));
    assert!(html.contains("<del>gone</del>"));
    assert!(html.ends_with("</body></html>"));
    let plain = gen.markdown_to_html("x", None, "/w");
    assert!(plain.contains("url('file:///w/assets/fonts/LXGWWenKaiGBScreen.ttf')"));
    assert!(plain.contains("font-family: sans-serif;"));
    let absolute = gen.markdown_to_html("x", Some("/opt/f.ttf"), "/w");
    assert!(absolute.contains("url('file:///opt/f.ttf')"));
}

#[test]
fn generator_keeps_its_settings() {
    let gen = ImageGenerator::new(&config()).unwrap();
    assert_eq!(gen.config().font_size, 24);
    assert_eq!(gen.config().image_output_dir, "data/pic");
}
