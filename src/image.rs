//! Turning a markdown answer into the HTML page that is rendered as an image.
//!
//! Which font files exist and the working directory are found by the caller;
//! the page is built here from those facts.
use vstd::prelude::*;
use vstd::string::*;
use crate::config::{same_config, Config};
use crate::error::ChatError;
use crate::paths::{join_path, path_join};
use crate::text::{decimal, decimal_text, has_prefix};

verus! {

/// The head of the page is these pieces, with the font file, the font stack,
/// the padding and the font sizes filled in between them.
pub const PAGE_HEAD_0: &'static str = "
        <!DOCTYPE html>
        <html>
        <head>
            <meta charset=\"UTF-8\">
            <style>
                @font-face {
                    font-family: 'LXGW WenKai';
                    src: local('LXGW WenKai'), url('file://";

pub const PAGE_HEAD_1: &'static str = "') format('truetype');
                    font-weight: normal;
                    font-style: normal;
                }
                @font-face {
                    font-family: 'Code Font';
                    src: local('Consolas'), local('Source Code Pro'), local('DejaVu Sans Mono'), local('Courier New'), local('Menlo');
                    font-weight: normal;
                    font-style: normal;
                }
                body {
                    font-family: ";

pub const PAGE_HEAD_2: &'static str = ";
                    line-height: 1.8;
                    padding: ";

pub const PAGE_HEAD_3: &'static str = "px;
                    background-color: #2b2b2b;  /* 稍微暗一点的灰色背景 */
                    color: #f0f0f0;  /* 更柔和的白色文字 */
                    font-size: ";

pub const PAGE_HEAD_4: &'static str = "px;
                    width: 1024px;
                    margin: 0 auto;
                    word-wrap: break-word;
                    overflow-wrap: break-word;
                    word-break: break-all;
                    text-shadow: 0 1px 1px rgba(0, 0, 0, 0.1);  /* 微妙的文字阴影 */
                }
                pre {
                    font-family: 'Code Font', ";

pub const PAGE_HEAD_5: &'static str = ", monospace;
                    background-color: #383838;  /* 更深的灰色作为代码块背景 */
                    padding: 16px;
                    border-radius: 8px;
                    overflow-x: auto;
                    white-space: pre-wrap;
                    word-wrap: break-word;
                    word-break: break-all;
                    font-size: ";

pub const PAGE_HEAD_6: &'static str = "px;
                    color: #e0e0e0;  /* 浅灰色代码文字 */
                    border-left: 3px solid #666666;  /* 左侧边框 */
                    margin: 20px 0;  /* 增加边距 */
                    box-shadow: 0 2px 5px rgba(0, 0, 0, 0.15);  /* 微妙的阴影 */
                }
                code {
                    font-family: 'Code Font', ";

pub const PAGE_HEAD_7: &'static str = ", monospace;
                    background-color: #454545;  /* 内联代码背景 */
                    padding: 3px 6px;
                    border-radius: 4px;
                    white-space: pre-wrap;
                    word-wrap: break-word;
                    color: #e0e0e0;  /* 浅灰色代码文字 */
                }
                blockquote {
                    border-left: 4px solid #777777;  /* 更亮的灰色边框 */
                    padding: 10px 20px;
                    margin: 20px 0;
                    background-color: #323232;  /* 微妙的背景色 */
                    border-radius: 0 8px 8px 0;  /* 右侧圆角 */
                    color: #d0d0d0;  /* 浅色引用文字 */
                }
                img {
                    max-width: 100%;
                    height: auto;
                    border-radius: 8px;  /* 图片圆角 */
                    margin: 20px 0;
                    box-shadow: 0 3px 10px rgba(0, 0, 0, 0.2);  /* 图片阴影 */
                }
                table {
                    border-collapse: collapse;
                    width: 100%;
                    margin: 25px 0;
                    table-layout: fixed;
                    border-radius: 8px;
                    overflow: hidden;  /* 确保圆角有效 */
                    box-shadow: 0 2px 5px rgba(0, 0, 0, 0.1);  /* 表格阴影 */
                }
                table, th, td {
                    border: 1px solid #555555;  /* 表格边框 */
                    padding: 12px;
                    word-wrap: break-word;
                    overflow-wrap: break-word;
                }
                th {
                    background-color: #444444;  /* 深灰色表头背景 */
                    text-align: left;
                    color: #ffffff;  /* 白色表头文字 */
                    font-weight: bold;
                }
                tr:nth-child(even) {
                    background-color: #333333;  /* 交替行颜色 */
                }
                h1, h2, h3, h4, h5, h6 {
                    margin-top: 30px;
                    margin-bottom: 15px;
                    color: #ffffff;  /* 白色标题 */
                    line-height: 1.4;
                    font-weight: 600;
                }
                h1 {
                    font-size: 32px;
                    border-bottom: 2px solid #555555;  /* 灰色边框 */
                    padding-bottom: 10px;
                    margin-bottom: 25px;
                    text-align: center;  /* 居中标题 */
                }
                h2 {
                    font-size: 28px;
                    border-bottom: 1px solid #555555;  /* 灰色边框 */
                    padding-bottom: 8px;
                    margin-top: 40px;  /* 增加间距 */
                }
                h3 {
                    font-size: 24px;
                    color: #e0e0e0;  /* 稍微变淡 */
                }
                p {
                    margin: 18px 0;
                    text-align: justify;
                    word-wrap: break-word;
                    overflow-wrap: break-word;
                    word-break: break-all;
                    color: #f0f0f0;  /* 确保段落文字是柔和的白色 */
                    line-height: 1.8;
                }
                ul, ol {
                    margin: 18px 0;
                    padding-left: 30px;
                    color: #f0f0f0;  /* 确保列表文字颜色 */
                }
                li {
                    margin-bottom: 8px;
                    word-wrap: break-word;
                    color: #f0f0f0;  /* 确保列表项文字颜色 */
                    line-height: 1.6;
                }
                li > ul, li > ol {
                    margin: 10px 0 10px 20px;  /* 嵌套列表的间距 */
                }
                a {
                    color: #78a9ff;  /* 亮蓝色链接，更柔和 */
                    text-decoration: none;
                    word-break: break-all;
                    border-bottom: 1px dotted #78a9ff;  /* 下划线效果 */
                    padding-bottom: 1px;
                }
                a:hover {
                    color: #a1c4ff;  /* 悬停色 */
                    border-bottom: 1px solid #a1c4ff;
                }
                hr {
                    border: 0;
                    height: 1px;
                    background-image: linear-gradient(to right, rgba(85, 85, 85, 0), rgba(85, 85, 85, 0.75), rgba(85, 85, 85, 0));  /* 渐变分隔线 */
                    margin: 30px 0;
                }
                /* 代码高亮样式 - 更丰富的配色方案 */
                .hljs-keyword {
                    color: #ff9580;  /* 关键字颜色 */
                    font-weight: bold;
                }
                .hljs-string {
                    color: #b5e88f;  /* 字符串颜色，更鲜明 */
                }
                .hljs-number {
                    color: #79d4f3;  /* 数字颜色，更柔和 */
                }
                .hljs-comment {
                    color: #b0b0b0;  /* 注释颜色 */
                    font-style: italic;
                }
                .hljs-function {
                    color: #d9a9ff;  /* 函数名颜色 */
                }
                .hljs-parameter {
                    color: #ffcc66;  /* 参数颜色 */
                }
                .hljs-tag {
                    color: #ff8080;  /* 标签颜色 */
                }
                .hljs-attr {
                    color: #8cdaff;  /* 属性颜色 */
                }
                /* 任务列表样式 */
                ul.task-list {
                    list-style-type: none;
                    padding-left: 20px;
                }
                .task-list-item {
                    position: relative;
                    padding-left: 25px;
                }
                .task-list-item input {
                    position: absolute;
                    left: 0;
                    top: 3px;
                }
                /* 脚注样式 */
                .footnote {
                    font-size: 0.9em;
                    color: #cccccc;
                    margin-top: 40px;
                    padding-top: 10px;
                    border-top: 1px dotted #555555;
                }
                .footnote-ref {
                    vertical-align: super;
                    font-size: 0.8em;
                }
            </style>
        </head>
        <body>
        ";

pub const PAGE_TAIL: &'static str = "</body></html>";

/// Font stack used when a CJK font file is available.
pub const CJK_FONT_FAMILY: &'static str = "'LXGW WenKai', 'Microsoft YaHei', 'SimHei', sans-serif";

/// Font stack used without one.
pub const PLAIN_FONT_FAMILY: &'static str = "sans-serif";

/// Where the CJK font is looked for, relative to the working directory, when
/// no configured font file exists.
pub const DEFAULT_FONT: &'static str = "assets/fonts/LXGWWenKaiGBScreen.ttf";

/// What `pulldown_cmark` writes as HTML for a markdown text, with tables,
/// footnotes, strikethrough and task lists enabled.
pub uninterp spec fn markdown_html_of(markdown: Seq<char>) -> Seq<char>;

/// Relies on `pulldown_cmark::Parser::new_ext` with strikethrough, tables,
/// footnotes and task lists enabled, and on `pulldown_cmark::html::push_html`.
#[verifier::external_body]
fn markdown_body(markdown: &str) -> (r: String)
    ensures
        r@ == markdown_html_of(markdown@),
{
    let mut options = pulldown_cmark::Options::empty();
    options.insert(pulldown_cmark::Options::ENABLE_STRIKETHROUGH);
    options.insert(pulldown_cmark::Options::ENABLE_TABLES);
    options.insert(pulldown_cmark::Options::ENABLE_FOOTNOTES);
    options.insert(pulldown_cmark::Options::ENABLE_TASKLISTS);
    let mut out = String::new();
    pulldown_cmark::html::push_html(&mut out, pulldown_cmark::Parser::new_ext(markdown, options));
    out
}

/// The font file referenced by the page: the first configured one that
/// exists, made absolute against `current_dir`, or the default font there.
pub open spec fn font_url_path(existing_font: Option<Seq<char>>, current_dir: Seq<char>) -> Seq<char> {
    match existing_font {
        Some(p) => if has_prefix(p, "/"@) {
            p
        } else {
            path_join(current_dir, p)
        },
        None => path_join(current_dir, DEFAULT_FONT@),
    }
}

/// The font stack of the page.
pub open spec fn font_family_of(has_font: bool) -> Seq<char> {
    if has_font {
        CJK_FONT_FAMILY@
    } else {
        PLAIN_FONT_FAMILY@
    }
}

/// The head of the page, with its style sheet.
pub open spec fn page_head(font_path: Seq<char>, family: Seq<char>, padding: nat, font_size: nat) -> Seq<char> {
    PAGE_HEAD_0@ + font_path + PAGE_HEAD_1@ + family + PAGE_HEAD_2@ + decimal(padding)
        + PAGE_HEAD_3@ + decimal(font_size) + PAGE_HEAD_4@ + family + PAGE_HEAD_5@
        + decimal((font_size - 2) as nat) + PAGE_HEAD_6@ + family + PAGE_HEAD_7@
}

/// Renders markdown answers as images.
#[derive(Debug)]
pub struct ImageGenerator {
    config: Config,
}

impl ImageGenerator {
    /// A generator working with these settings.
    pub fn new(config: &Config) -> (r: Result<ImageGenerator, ChatError>)
        ensures
            r matches Ok(g) && same_config(g.settings(), *config),
    {
        Ok(ImageGenerator { config: config.duplicate() })
    }

    /// The settings in use.
    pub closed spec fn settings(&self) -> Config {
        self.config
    }

    /// The settings in use.
    pub fn config(&self) -> (r: &Config)
        ensures
            *r == self.settings(),
    {
        &self.config
    }

    /// The full HTML page for a markdown answer. `existing_font` is the first
    /// configured font file found on disk, if any; `current_dir` is the
    /// working directory, against which relative font paths are resolved.
    pub fn markdown_to_html(&self, markdown: &str, existing_font: Option<&str>, current_dir: &str) -> (r: String)
        requires
            self.settings().font_size >= 2,
        ensures
            r@ == page_head(
                font_url_path(existing_font.deep_view(), current_dir@),
                font_family_of(existing_font is Some),
                self.settings().padding as nat,
                self.settings().font_size as nat,
            ) + markdown_html_of(markdown@) + PAGE_TAIL@,
    {
        let font_path = match existing_font {
            Some(p) => {
                if p.unicode_len() > 0 && p.get_char(0) == '/' {
                    proof {
                        reveal_strlit("/");
                        assert(p@.subrange(0, 1) =~= "/"@);
                    }
                    p.to_owned()
                } else {
                    proof {
                        reveal_strlit("/");
                        if p@.len() > 0 {
                            assert(p@.subrange(0, 1)[0] == p@[0]);
                        }
                    }
                    join_path(current_dir, p)
                }
            },
            None => join_path(current_dir, DEFAULT_FONT),
        };
        let family = match existing_font {
            Some(_) => CJK_FONT_FAMILY,
            None => PLAIN_FONT_FAMILY,
        };
        let mut page = PAGE_HEAD_0.to_owned();
        page.append(font_path.as_str());
        page.append(PAGE_HEAD_1);
        page.append(family);
        page.append(PAGE_HEAD_2);
        page.append(decimal_text(self.config.padding as u64).as_str());
        page.append(PAGE_HEAD_3);
        page.append(decimal_text(self.config.font_size as u64).as_str());
        page.append(PAGE_HEAD_4);
        page.append(family);
        page.append(PAGE_HEAD_5);
        page.append(decimal_text((self.config.font_size - 2) as u64).as_str());
        page.append(PAGE_HEAD_6);
        page.append(family);
        page.append(PAGE_HEAD_7);
        page.append(markdown_body(markdown).as_str());
        page.append(PAGE_TAIL);
        page
    }
}

} // verus!
