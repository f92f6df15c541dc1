//! The tutorial of the about window: eight chapters and where each begins.
//!
//! A chapter's place is its offset in UTF-16 code units, which is how the text
//! control counts.
use crate::model;
use crate::model::{os_line, OsInfo};
use crate::text;
use crate::text::utf16_count;
use crate::tutorial_laws;
use vstd::prelude::*;
use vstd::string::*;

verus! {

/// The tutorial and its chapters, each with its short label and its offset.
#[derive(Debug)]
pub struct AboutText {
    pub body: String,
    pub chapters: Vec<(&'static str, usize)>,
}

/// The labels of the chapter bar. Each stands in the heading of its chapter.
pub const CHAPTER_LABELS: [&'static str; 8] = [
    "这是什么",
    "快速开始",
    "地址怎么填",
    "参数说明",
    "常见问题",
    "排错",
    "安全与保密",
    "许可与环境",
];

pub const CHAPTER_NUMERALS: [&'static str; 8] = ["一", "二", "三", "四", "五", "六", "七", "八"];

/// The long command line flags. The tutorial explains each of them.
pub const CLI_LONG_FLAGS: [&'static str; 19] = [
    "--listen-host",
    "--listen-port",
    "--port",
    "--port-fallback",
    "--upstream",
    "--strip-prefix",
    "--connect-timeout-ms",
    "--response-head-timeout-ms",
    "--first-byte-timeout-ms",
    "--pool-max-idle-per-host",
    "--pool-idle-timeout-ms",
    "--cors-mode",
    "--cors-max-age",
    "--log-level",
    "--start-paused",
    "--close-action",
    "--no-gui",
    "--version",
    "--help",
];

pub const WHAT_IT_IS: &'static str = "

  本程序 = 一个本机反代：把你机器上的 127.0.0.1:<端口> 收到的请求，原样转发到你指定的
  模型服务（上游），并把响应流式回传。它是给「客户端只能填 127.0.0.1、而模型服务在别处」
  这种场景用的：客户端不用改代码、不用装证书，只把 Base URL 指向本机端口即可。

  你需要它吗：如果应用（或它的浏览器环境）只允许 http://127.0.0.1/... 作为 Base URL，
  而真实模型服务不在本机 —— 需要。如果应用本来就能直连模型服务地址 —— 不需要。

  你现在该看哪一章：
    · 第一次用          → 第二章（快速开始，3 步）
    · 连接报错 / 404    → 第三章（地址怎么填）+ 第五章（常见问题）
    · 想调超时 / 连接池 → 第四章（参数说明）
    · 要在内网说明它做什么 → 第七章（安全与保密）

  本程序没有配置文件：全部参数走命令行，界面里的改动只对本次运行生效，关掉即回到默认值。
  日志只在内存（最近 2000 条），退出即消失 —— 要留存请用「查看日志」→「复制全部」。

";

pub const QUICK_START: &'static str = "

  第 1 步：双击 exe
    默认监听 127.0.0.1:80；80 被占用时按候选端口回退（默认 8000,18080），主面板会显示
    实际监听地址（不是请求的那个）。若两个回退口也被占 ⇒ 面板显示「未监听」并给出提示。

  第 2 步：把客户端的 Base URL 指向本机
    设置 → 模型 → Base URL 填 http://127.0.0.1/v1
    （非 80 端口时写 http://127.0.0.1:<实际端口>/v1；端口见主面板第一行）
    面板上的「复制 Base URL」按钮就是这一串，点一下进剪贴板。

  第 3 步：发一条真实对话
    先在应用里关闭「预检规避兼容模式」，然后发一条消息。
    成功判据 = 回复逐字流式出现；失败判据与三读法见第五章。

  这一步之后还没通，按顺序看：第五章（常见问题）→ 第六章（排错，含日志怎么取）。

";

pub const ADDRESSES: &'static str = "

  · 端口：默认 80 ⇒ Base URL 里不写端口（http://127.0.0.1/v1）。用了别的端口就必须写全
    （http://127.0.0.1:18080/v1）—— 端口以主面板显示的实际地址为准（回退后端口会变）。
  · 路径：本程序同时支持 OpenAI 兼容（/v1/chat/completions）与 Anthropic（/v1/messages）；
    客户端里 Base URL 填到 /v1 即可，具体端点由客户端自己拼。
  · 为什么不是 8080：8080 是上游常见的本机端口。Base URL 要填的是本程序的监听口
    （127.0.0.1:80），不是上游的 8080 —— 这两个数最容易填反。
  · 剥前缀：上游要求带路径前缀（例如只接受 /gateway/v1/...）时，用 --strip-prefix 把客户端
    多写的前缀剥掉；Base URL 侧不用改。
  · 「复制 Base URL」在服务没起时不可用（还没有实际地址）—— 先点「启动」。

";

pub const PARAMETERS: &'static str = "

  写法两种都行：--参数 值 或 --参数=值。下面每条给「默认值 + 什么时候改」。

  监听与转发
    --listen-host <ip>            只接受回环地址（默认 127.0.0.1；非回环一律拒绝）
                                  改它：基本不用改（本程序只监听本机）。
    --listen-port <n>             监听端口 1-65535（默认 80）；别名 --port
                                  改它：80 要留给别的服务，或没有管理员/端口权限时。
    --port-fallback <列表>         被占用时的候选端口，逗号分隔（默认 8000,18080；none = 不回退）
                                  改它：想让回退口固定（例如防火墙只放行某个口）时。
    --upstream <url>              上游 http:// 地址（默认指向本机 8080 的模型服务；不支持 https）
                                  改它：模型服务不在本机 8080 时——最常改的一条。
                                  内网部署写成 --upstream http://<内网模型主机>。
    --strip-prefix <路径>         剥掉监听侧路径前缀（默认空 = 不动；例：/proxy）
                                  改它：客户端会在路径里多带一层前缀时。

  超时（单位毫秒）
    --connect-timeout-ms <ms>           连接建立超时（默认 10000；不允许 0）
                                        改它：上游在内网、握手慢时报「连接超时」时放大。
    --response-head-timeout-ms <ms>     等上游响应头的上限（默认 120000；0 = 无限等，不推荐）
                                        改它：上游冷启动很慢 ⇒ 保持或放大；soak/压测 ⇒ 调小（如 3000）
                                        好让「卡住」尽早暴露。
    --first-byte-timeout-ms <ms>        响应头之后、首帧之前的看门狗（默认 0 = 不设）
                                        改它：上游会「先回头发包、再长时间不出字」时设一个值。

  连接池与 CORS
    --pool-max-idle-per-host <n>        每个主机的空闲连接上限（默认 16）
                                        改它：并发很高、上游连接数吃紧时收紧。
    --pool-idle-timeout-ms <ms>         空闲连接保留期（默认 10000）
                                        改它：上游会主动断开空闲连接 ⇒ 调小；想省握手 ⇒ 调大。
    --cors-mode <*|star|echo>           跨源头模式（默认 *；star 是 * 的别名，等价）
                                        改它：需要按请求回显 Origin（多域场景）时用 echo。
    --cors-max-age <秒>                 预检 Max-Age（默认 600）
                                        改它：想让浏览器少发预检请求时调大。

  日志（只在内存，不写磁盘）
    --log-level <error|warn|info|debug> 日志级别（默认 info）
                                        改它：排障时用 debug（记录更细，代价是日志长得快）。

  启动与退出
    --start-paused              启动后不自动开始服务（到界面点「启动」）；与 --no-gui 互斥
                                改它：想先看设置再放流量时。
    --close-action <tray|exit>  关闭按钮行为：tray = 最小化到托盘（默认）；exit = 直接退出
                                改它：脚本/无人值守场景想要「关掉就退出」时。

  其它
    --no-gui                    无界面运行（脚本 / 排障）；与 --start-paused 互斥
    --version, -V               显示版本
    -h, --help                  显示本帮助（全文；本文只是上手版）

";

pub const QUESTIONS: &'static str = "

  1) 应用仍报 Failed to fetch —— 三读法
     ① 面板上的实际监听地址：是不是「未监听」（端口全被占）？
     ② Base URL 的端口 / 路径是否与面板一致（见第三章）；
     ③ 点「查看日志」，看有没有「本地预检」计数 / 转发记录 —— 一条都没有 = 请求根本没进来。

  2) 上游 404（而不是报错）
     多半是路径拼接：客户端 Base URL 少了 /v1，或上游需要路径前缀而没配 --strip-prefix。
     先试把 Base URL 补成 http://127.0.0.1/v1，再看上游是否要求前缀。

  3) 端口被占用
     默认 80 被占 ⇒ 按 --port-fallback 列表（默认 8000,18080）依次回退，面板显示实际地址；
     全被占 ⇒ 面板提示「未监听」（Windows 报 10048 / 10013：10048 = 端口已用，
     10013 = 权限被拒 —— 例如被系统保留段占用）。处理：换 --listen-port，或释放占用端口的程序。

  4) 上游不可达
     会看到带原因的 502（含上游地址；不是 Failed to fetch）—— 说明代理这一层是通的、
     问题在上游。查上游进程 / 地址 / 防火墙；上游恢复后无需重启本程序。

";

pub const TROUBLE: &'static str = "

  · 「CORS 分层」面板的预期读数（应用里的「运行自检」）：
    显示「· 简单 POST HTTP 400(未预检)」属预期（浏览器没发预检时的正常表现），不是故障。
    判「修好了」看两件事：① P1/P2/P4 三行可读；② 发一条真实对话能正常流式输出。

  · 日志怎么取：主面板「查看日志」（或设置窗的「查看日志」）→ 文档窗右上角「复制全部」
    → 剪贴板。日志只在内存，退出即消失 ⇒ 需要留证请当场复制。
    「复制日志」（不带「全部」）是主面板的快捷项：最近 100 行、每行不截断。

  · 上游「卡住不回」：先看是不是上游慢；确认后调 --response-head-timeout-ms（见第四章）。
    代理侧的超时不是「掐断正常长响应」——流式响应只要头到了就会一直转发。

  · 代理自己起不来：看主面板结果行 / 日志里的「监听」与「自环」两行。上游与本程序监听地址
    同址会被拒绝启动（退出码 2）——改 --upstream 或 --listen-port 之一即可。

";

pub const SAFETY: &'static str = r#"

  「本程序不做什么」8 条（完整版与可核依据见 rust-proxy/README.md「安全与保密」）：
    ① 不读取、不写入任何文件：无配置文件，日志只在内存（唯四豁免：系统加载 exe 与垫片、
       读自身嵌入的图标资源、你显式点的复制到剪贴板、控制台设备句柄）；
    ② 不写注册表：程序内没有任何注册表读写代码（开机自启功能已整体移除，两个 --*-autostart
       参数不存在，传入即报「未知参数」）；
    ③ 不注入进程 / 不挂钩 / 不截屏 / 不键盘记录；
    ④ 不 spawn 子进程（含 cmd / powershell）：运行期子进程数恒为 0；
    ⑤ 除你指定的上游外零外联：无遥测、无更新检查、不做外部 DNS；
    ⑥ 只监听回环：默认且只能绑 127.0.0.1；
    ⑦ 不打包 / 不混淆 / 不加密 / 不加壳；manifest 未声明提权 ⇒ 不触 UAC；
    ⑧ 源码 / 文档 / 示例不含任何内网地址与服务标识（示例一律 127.0.0.1 与占位符）。

  旧版本自启遗留项的清理（参考）：P6 之前装过自启的机器上，遗留值请手动删 ——
  reg delete "HKCU\Software\Microsoft\Windows\CurrentVersion\Run" /v AzusaAI-LocalProxy /f
  这只是参考命令，程序不再提供该能力。

  运行期唯一的外部数据流向 = 你填的上游地址（日志、状态、读数全在本机内存里）。

"#;

pub const LICENCE: &'static str = "

  许可证：GPL-3.0（全文见仓库根 LICENSE）。
  第三方：静态垫片 VC-LTL5（EPL-2.0）与 YY-Thunks（MIT），随 exe 一起静态链接，
  仅依赖系统 msvcrt.dll；声明见 rust-proxy/THIRD_PARTY_NOTICES.md。
  源码位置（纯文本，可复制）：
    https://github.com/yuunnn-w/AzusaAI-WebUI （目录 rust-proxy/）

";

pub const ENVIRONMENT: &'static str = "  构建目标：Windows 7 SP1+ x64（win7 目标 + VC-LTL5/YY-Thunks 两层垫片）

这一页的正文可以整段选中复制（正文框右上角有「复制全文」）；参数全文以「--help」为准。
";

pub const CHAPTER_TEXTS: [&'static str; 8] = [
    WHAT_IT_IS,
    QUICK_START,
    ADDRESSES,
    PARAMETERS,
    QUESTIONS,
    TROUBLE,
    SAFETY,
    LICENCE,
];

/// The heading of a chapter, counted from 0; past the end, that of the last.
pub open spec fn heading(index: int) -> Seq<char> {
    let i = if index < 7 {
        index
    } else {
        7
    };
    "第"@ + CHAPTER_NUMERALS[i]@ + "章 · "@ + CHAPTER_LABELS[i]@
}

/// The heading of a chapter.
pub fn chapter_heading(index: usize) -> (r: String)
    ensures
        r@ == heading(index as int),
{
    let i: usize = if index < 7 {
        index
    } else {
        7
    };
    let mut out = "第".to_owned();
    out.append(CHAPTER_NUMERALS[i]);
    out.append("章 · ");
    out.append(CHAPTER_LABELS[i]);
    out
}

/// The length of a text in UTF-16 code units.
pub fn utf16_len(text: &str) -> (n: usize)
    ensures
        n == text::utf16(text@).len(),
{
    utf16_count(text)
}

/// The last lines of the last chapter: the version and the system.
pub open spec fn environment(version: Seq<char>, os: Seq<char>) -> Seq<char> {
    "环境（本次运行）\n  版本：v"@ + version + "\n  运行 OS："@ + os + "\n"@ + ENVIRONMENT@
}

/// What stands below the heading of a chapter.
pub open spec fn below_heading(index: int, version: Seq<char>, os: Seq<char>) -> Seq<char> {
    if index == 7 {
        CHAPTER_TEXTS[index]@ + environment(version, os)
    } else {
        CHAPTER_TEXTS[index]@
    }
}

/// The first `count` chapters.
pub open spec fn chapters_before(count: nat, version: Seq<char>, os: Seq<char>) -> Seq<char>
    decreases count,
{
    if count == 0 {
        Seq::empty()
    } else {
        chapters_before((count - 1) as nat, version, os) + (heading(count - 1) + below_heading(
            count - 1,
            version,
            os,
        ))
    }
}

/// The whole tutorial.
pub open spec fn tutorial(version: Seq<char>, os: Seq<char>) -> Seq<char> {
    chapters_before(8, version, os)
}

/// Where a chapter begins.
pub open spec fn chapter_offset(index: nat, version: Seq<char>, os: Seq<char>) -> nat {
    text::utf16(chapters_before(index, version, os)).len()
}

fn push_chapter(
    body: &mut String,
    chapters: &mut Vec<(&'static str, usize)>,
    index: usize,
    version: &str,
    os: &str,
)
    requires
        index < 8,
        old(body)@ == chapters_before(index as nat, version@, os@),
        old(chapters)@.len() == index,
        forall|i: int|
            0 <= i < index ==> (#[trigger] old(chapters)@[i]).0@ == CHAPTER_LABELS[i]@ && old(
                chapters,
            )@[i].1 == chapter_offset(i as nat, version@, os@),
    ensures
        final(body)@ == chapters_before((index + 1) as nat, version@, os@),
        final(chapters)@.len() == index + 1,
        forall|i: int|
            0 <= i <= index ==> (#[trigger] final(chapters)@[i]).0@ == CHAPTER_LABELS[i]@
                && final(chapters)@[i].1 == chapter_offset(i as nat, version@, os@),
{
    let ghost before = body@;
    let offset = utf16_len(body.as_str());
    chapters.push((CHAPTER_LABELS[index], offset));
    body.append(chapter_heading(index).as_str());
    let ghost titled = body@;
    body.append(CHAPTER_TEXTS[index]);
    if index == 7 {
        body.append("环境（本次运行）\n  版本：v");
        body.append(version);
        body.append("\n  运行 OS：");
        body.append(os);
        body.append("\n");
        body.append(ENVIRONMENT);
    }
    assert(body@ =~= titled + below_heading(index as int, version@, os@));
    assert(body@ =~= before + (heading(index as int) + below_heading(
        index as int,
        version@,
        os@,
    )));
}

/// The tutorial for a version and a system.
pub fn tutorial_text_for(version: &str, os: &str) -> (t: AboutText)
    ensures
        t.body@ == tutorial(version@, os@),
        t.chapters@.len() == 8,
        forall|i: int|
            0 <= i < 8 ==> (#[trigger] t.chapters@[i]).0@ == CHAPTER_LABELS[i]@
                && t.chapters@[i].1 == chapter_offset(i as nat, version@, os@),
{
    let mut body = String::new();
    let mut chapters: Vec<(&'static str, usize)> = Vec::new();
    let mut index: usize = 0;
    while index < 8
        invariant
            index <= 8,
            body@ == chapters_before(index as nat, version@, os@),
            chapters@.len() == index,
            forall|i: int|
                0 <= i < index ==> (#[trigger] chapters@[i]).0@ == CHAPTER_LABELS[i]@
                    && chapters@[i].1 == chapter_offset(i as nat, version@, os@),
        decreases 8 - index,
    {
        push_chapter(&mut body, &mut chapters, index, version, os);
        index += 1;
    }
    AboutText { body, chapters }
}

/// The tutorial of a program version on the system that it runs on.
pub fn tutorial_text(version: &str, os: &Option<OsInfo>) -> (t: AboutText)
    ensures
        t.body@ == tutorial(version@, model::os_words(model::os_view(*os))),
        t.chapters@.len() == 8,
        forall|i: int|
            0 <= i < 8 ==> (#[trigger] t.chapters@[i]).0@ == CHAPTER_LABELS[i]@
                && t.chapters@[i].1 == chapter_offset(
                i as nat,
                version@,
                model::os_words(model::os_view(*os)),
            ),
{
    let line = os_line(os);
    tutorial_text_for(version, line.as_str())
}

/// The first chapter begins at the start, and each one after the one before it.
pub proof fn chapter_offsets_grow(version: Seq<char>, os: Seq<char>, i: nat, j: nat)
    requires
        i < j <= 8,
    ensures
        chapter_offset(0, version, os) == 0,
        chapter_offset(i, version, os) < chapter_offset(j, version, os),
    decreases j,
{
    assert(chapters_before(0, version, os) =~= Seq::<char>::empty());
    let last = (j - 1) as nat;
    let front = chapters_before(last, version, os);
    let chapter = heading(last as int) + below_heading(last as int, version, os);
    text::utf16_concat(front, chapter);
    reveal_strlit("第");
    assert(chapter.len() > 0);
    text::utf16_len_bounds(chapter);
    if i < last {
        chapter_offsets_grow(version, os, i, last);
    }
}

/// At the offset of a chapter, in code units, its heading stands, and it is a line of
/// its own: it has no line feed, one stands before it unless it is the first, and one
/// stands behind it.
pub proof fn chapter_offset_points_at_its_heading(version: Seq<char>, os: Seq<char>, i: nat)
    requires
        i < 8,
    ensures
        ({
            let units = text::utf16(tutorial(version, os));
            let title = text::utf16(heading(i as int));
            let at = chapter_offset(i, version, os) as int;
            &&& at + title.len() < units.len() && units.subrange(at, at + title.len()) == title
            &&& forall|k: int| 0 <= k < title.len() ==> #[trigger] title[k] != 0x0A
            &&& i == 0 ==> at == 0
            &&& i > 0 ==> at > 0 && units[at - 1] == 0x0A
            &&& units[at + title.len()] == 0x0A
        }),
{
    let front = chapters_before(i, version, os);
    let title = heading(i as int);
    let below = below_heading(i as int, version, os);
    let rest = chapters_from(i + 1, version, os);
    chapters_split(i + 1, version, os);
    text::utf16_concat(title, below);
    text::utf16_concat(front, title + below);
    text::utf16_concat(chapters_before(i + 1, version, os), rest);
    let units = text::utf16(tutorial(version, os));
    let at = text::utf16(front).len() as int;
    assert(units.subrange(at, at + text::utf16(title).len()) =~= text::utf16(title));
    tutorial_laws::heading_is_one_line(i as int);
    text::encoding_keeps_one_line(title);
    tutorial_laws::chapter_text_is_lines(i as int);
    text::feed_at_an_end(below);
    if i > 0 {
        tutorial_laws::chapter_text_is_lines(i - 1);
        text::feed_at_an_end(front);
    }
}

/// The chapters from an index on.
pub open spec fn chapters_from(index: nat, version: Seq<char>, os: Seq<char>) -> Seq<char>
    decreases 8 - index,
{
    if index >= 8 {
        Seq::empty()
    } else {
        (heading(index as int) + below_heading(index as int, version, os)) + chapters_from(
            index + 1,
            version,
            os,
        )
    }
}

/// The tutorial is the chapters before an index and those from it on.
pub proof fn chapters_split(index: nat, version: Seq<char>, os: Seq<char>)
    requires
        index <= 8,
    ensures
        tutorial(version, os) == chapters_before(index, version, os) + chapters_from(
            index,
            version,
            os,
        ),
    decreases 8 - index,
{
    if index < 8 {
        chapters_split(index + 1, version, os);
        assert(chapters_before(index, version, os) + chapters_from(index, version, os)
            =~= chapters_before(index + 1, version, os) + chapters_from(index + 1, version, os));
    } else {
        assert(chapters_before(8, version, os) + Seq::<char>::empty() =~= chapters_before(
            8,
            version,
            os,
        ));
    }
}

} // verus!
