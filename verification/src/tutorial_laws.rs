//! Laws of the tutorial's line breaks. It has no carriage return of its own, so in
//! the text control they are pairs throughout and can be undone.
use crate::about_text;
use crate::about_text::{
    ADDRESSES, CHAPTER_LABELS, CHAPTER_NUMERALS, CHAPTER_TEXTS, ENVIRONMENT, LICENCE, PARAMETERS,
    QUESTIONS, QUICK_START, SAFETY, TROUBLE, WHAT_IT_IS,
};
use crate::text;
use vstd::prelude::*;

verus! {

proof fn what_it_is_is_lines()
    ensures
        text::free_of_returns(WHAT_IT_IS@),
        WHAT_IT_IS@.len() > 0,
        WHAT_IT_IS@[0] == '\n',
        WHAT_IT_IS@.last() == '\n',
{
    reveal_strlit("

  本程序 = 一个本机反代：把你机器上的 127.0.0.1:<端口> 收到的请求，原样转发到你指定的
  模型服务（上游），并把响应流式回传。它是给「客户端只能填 127.0.0.1、而模型服务在别处」
  这种场景用的：客户端不用改代码、不用装证书，只把 Base URL 指向本机端口即可。

  你需要它吗：如果应用（或它的浏览器环境）只允许 http://127.0.0.1/... 作为 Base URL，
  而真实模型服务不在本机 —— 需要。如果应用本来就能直连模型服务地址 —— 不需要。

  你现在该看哪一章：
    · 第一次用          → 第二章（快速开始，3 步）
    · 连接报错 / 404    → 第三章（地址怎么填）+ 第五章（常见问题）
    · 想调超时 / 连接池 → 第四章（参数说明）
    · 要在内网说明它做什么 → 第七章（安全与保密）

  本程序没有配置文件：全部参数走命令行，界面里的改动只对本次运行生效，关掉即回到默认值。
  日志只在内存（最近 2000 条），退出即消失 —— 要留存请用「查看日志」→「复制全部」。

");
}

proof fn quick_start_is_lines()
    ensures
        text::free_of_returns(QUICK_START@),
        QUICK_START@.len() > 0,
        QUICK_START@[0] == '\n',
        QUICK_START@.last() == '\n',
{
    reveal_strlit("

  第 1 步：双击 exe
    默认监听 127.0.0.1:80；80 被占用时按候选端口回退（默认 8000,18080），主面板会显示
    实际监听地址（不是请求的那个）。若两个回退口也被占 ⇒ 面板显示「未监听」并给出提示。

  第 2 步：把客户端的 Base URL 指向本机
    设置 → 模型 → Base URL 填 http://127.0.0.1/v1
    （非 80 端口时写 http://127.0.0.1:<实际端口>/v1；端口见主面板第一行）
    面板上的「复制 Base URL」按钮就是这一串，点一下进剪贴板。

  第 3 步：发一条真实对话
    先在应用里关闭「预检规避兼容模式」，然后发一条消息。
    成功判据 = 回复逐字流式出现；失败判据与三读法见第五章。

  这一步之后还没通，按顺序看：第五章（常见问题）→ 第六章（排错，含日志怎么取）。

");
}

proof fn addresses_is_lines()
    ensures
        text::free_of_returns(ADDRESSES@),
        ADDRESSES@.len() > 0,
        ADDRESSES@[0] == '\n',
        ADDRESSES@.last() == '\n',
{
    reveal_strlit("

  · 端口：默认 80 ⇒ Base URL 里不写端口（http://127.0.0.1/v1）。用了别的端口就必须写全
    （http://127.0.0.1:18080/v1）—— 端口以主面板显示的实际地址为准（回退后端口会变）。
  · 路径：本程序同时支持 OpenAI 兼容（/v1/chat/completions）与 Anthropic（/v1/messages）；
    客户端里 Base URL 填到 /v1 即可，具体端点由客户端自己拼。
  · 为什么不是 8080：8080 是上游常见的本机端口。Base URL 要填的是本程序的监听口
    （127.0.0.1:80），不是上游的 8080 —— 这两个数最容易填反。
  · 剥前缀：上游要求带路径前缀（例如只接受 /gateway/v1/...）时，用 --strip-prefix 把客户端
    多写的前缀剥掉；Base URL 侧不用改。
  · 「复制 Base URL」在服务没起时不可用（还没有实际地址）—— 先点「启动」。

");
}

proof fn parameters_is_lines()
    ensures
        text::free_of_returns(PARAMETERS@),
        PARAMETERS@.len() > 0,
        PARAMETERS@[0] == '\n',
        PARAMETERS@.last() == '\n',
{
    reveal_strlit("

  写法两种都行：--参数 值 或 --参数=值。下面每条给「默认值 + 什么时候改」。

  监听与转发
    --listen-host <ip>            只接受回环地址（默认 127.0.0.1；非回环一律拒绝）
                                  改它：基本不用改（本程序只监听本机）。
    --listen-port <n>             监听端口 1-65535（默认 80）；别名 --port
                                  改它：80 要留给别的服务，或没有管理员/端口权限时。
    --port-fallback <列表>         被占用时的候选端口，逗号分隔（默认 8000,18080；none = 不回退）
                                  改它：想让回退口固定（例如防火墙只放行某个口）时。
    --upstream <url>              上游 http:// 地址（默认指向本机 8080 的模型服务；不支持 https）
                                  改它：模型服务不在本机 8080 时——最常改的一条。
                                  内网部署写成 --upstream http://<内网模型主机>。
    --strip-prefix <路径>         剥掉监听侧路径前缀（默认空 = 不动；例：/proxy）
                                  改它：客户端会在路径里多带一层前缀时。

  超时（单位毫秒）
    --connect-timeout-ms <ms>           连接建立超时（默认 10000；不允许 0）
                                        改它：上游在内网、握手慢时报「连接超时」时放大。
    --response-head-timeout-ms <ms>     等上游响应头的上限（默认 120000；0 = 无限等，不推荐）
                                        改它：上游冷启动很慢 ⇒ 保持或放大；soak/压测 ⇒ 调小（如 3000）
                                        好让「卡住」尽早暴露。
    --first-byte-timeout-ms <ms>        响应头之后、首帧之前的看门狗（默认 0 = 不设）
                                        改它：上游会「先回头发包、再长时间不出字」时设一个值。

  连接池与 CORS
    --pool-max-idle-per-host <n>        每个主机的空闲连接上限（默认 16）
                                        改它：并发很高、上游连接数吃紧时收紧。
    --pool-idle-timeout-ms <ms>         空闲连接保留期（默认 10000）
                                        改它：上游会主动断开空闲连接 ⇒ 调小；想省握手 ⇒ 调大。
    --cors-mode <*|star|echo>           跨源头模式（默认 *；star 是 * 的别名，等价）
                                        改它：需要按请求回显 Origin（多域场景）时用 echo。
    --cors-max-age <秒>                 预检 Max-Age（默认 600）
                                        改它：想让浏览器少发预检请求时调大。

  日志（只在内存，不写磁盘）
    --log-level <error|warn|info|debug> 日志级别（默认 info）
                                        改它：排障时用 debug（记录更细，代价是日志长得快）。

  启动与退出
    --start-paused              启动后不自动开始服务（到界面点「启动」）；与 --no-gui 互斥
                                改它：想先看设置再放流量时。
    --close-action <tray|exit>  关闭按钮行为：tray = 最小化到托盘（默认）；exit = 直接退出
                                改它：脚本/无人值守场景想要「关掉就退出」时。

  其它
    --no-gui                    无界面运行（脚本 / 排障）；与 --start-paused 互斥
    --version, -V               显示版本
    -h, --help                  显示本帮助（全文；本文只是上手版）

");
}

proof fn questions_is_lines()
    ensures
        text::free_of_returns(QUESTIONS@),
        QUESTIONS@.len() > 0,
        QUESTIONS@[0] == '\n',
        QUESTIONS@.last() == '\n',
{
    reveal_strlit("

  1) 应用仍报 Failed to fetch —— 三读法
     ① 面板上的实际监听地址：是不是「未监听」（端口全被占）？
     ② Base URL 的端口 / 路径是否与面板一致（见第三章）；
     ③ 点「查看日志」，看有没有「本地预检」计数 / 转发记录 —— 一条都没有 = 请求根本没进来。

  2) 上游 404（而不是报错）
     多半是路径拼接：客户端 Base URL 少了 /v1，或上游需要路径前缀而没配 --strip-prefix。
     先试把 Base URL 补成 http://127.0.0.1/v1，再看上游是否要求前缀。

  3) 端口被占用
     默认 80 被占 ⇒ 按 --port-fallback 列表（默认 8000,18080）依次回退，面板显示实际地址；
     全被占 ⇒ 面板提示「未监听」（Windows 报 10048 / 10013：10048 = 端口已用，
     10013 = 权限被拒 —— 例如被系统保留段占用）。处理：换 --listen-port，或释放占用端口的程序。

  4) 上游不可达
     会看到带原因的 502（含上游地址；不是 Failed to fetch）—— 说明代理这一层是通的、
     问题在上游。查上游进程 / 地址 / 防火墙；上游恢复后无需重启本程序。

");
}

proof fn trouble_is_lines()
    ensures
        text::free_of_returns(TROUBLE@),
        TROUBLE@.len() > 0,
        TROUBLE@[0] == '\n',
        TROUBLE@.last() == '\n',
{
    reveal_strlit("

  · 「CORS 分层」面板的预期读数（应用里的「运行自检」）：
    显示「· 简单 POST HTTP 400(未预检)」属预期（浏览器没发预检时的正常表现），不是故障。
    判「修好了」看两件事：① P1/P2/P4 三行可读；② 发一条真实对话能正常流式输出。

  · 日志怎么取：主面板「查看日志」（或设置窗的「查看日志」）→ 文档窗右上角「复制全部」
    → 剪贴板。日志只在内存，退出即消失 ⇒ 需要留证请当场复制。
    「复制日志」（不带「全部」）是主面板的快捷项：最近 100 行、每行不截断。

  · 上游「卡住不回」：先看是不是上游慢；确认后调 --response-head-timeout-ms（见第四章）。
    代理侧的超时不是「掐断正常长响应」——流式响应只要头到了就会一直转发。

  · 代理自己起不来：看主面板结果行 / 日志里的「监听」与「自环」两行。上游与本程序监听地址
    同址会被拒绝启动（退出码 2）——改 --upstream 或 --listen-port 之一即可。

");
}

proof fn safety_is_lines()
    ensures
        text::free_of_returns(SAFETY@),
        SAFETY@.len() > 0,
        SAFETY@[0] == '\n',
        SAFETY@.last() == '\n',
{
    reveal_strlit(r#"

  「本程序不做什么」8 条（完整版与可核依据见 rust-proxy/README.md「安全与保密」）：
    ① 不读取、不写入任何文件：无配置文件，日志只在内存（唯四豁免：系统加载 exe 与垫片、
       读自身嵌入的图标资源、你显式点的复制到剪贴板、控制台设备句柄）；
    ② 不写注册表：程序内没有任何注册表读写代码（开机自启功能已整体移除，两个 --*-autostart
       参数不存在，传入即报「未知参数」）；
    ③ 不注入进程 / 不挂钩 / 不截屏 / 不键盘记录；
    ④ 不 spawn 子进程（含 cmd / powershell）：运行期子进程数恒为 0；
    ⑤ 除你指定的上游外零外联：无遥测、无更新检查、不做外部 DNS；
    ⑥ 只监听回环：默认且只能绑 127.0.0.1；
    ⑦ 不打包 / 不混淆 / 不加密 / 不加壳；manifest 未声明提权 ⇒ 不触 UAC；
    ⑧ 源码 / 文档 / 示例不含任何内网地址与服务标识（示例一律 127.0.0.1 与占位符）。

  旧版本自启遗留项的清理（参考）：P6 之前装过自启的机器上，遗留值请手动删 ——
  reg delete "HKCU\Software\Microsoft\Windows\CurrentVersion\Run" /v AzusaAI-LocalProxy /f
  这只是参考命令，程序不再提供该能力。

  运行期唯一的外部数据流向 = 你填的上游地址（日志、状态、读数全在本机内存里）。

"#);
}

proof fn licence_is_lines()
    ensures
        text::free_of_returns(LICENCE@),
        LICENCE@.len() > 0,
        LICENCE@[0] == '\n',
        LICENCE@.last() == '\n',
{
    reveal_strlit("

  许可证：GPL-3.0（全文见仓库根 LICENSE）。
  第三方：静态垫片 VC-LTL5（EPL-2.0）与 YY-Thunks（MIT），随 exe 一起静态链接，
  仅依赖系统 msvcrt.dll；声明见 rust-proxy/THIRD_PARTY_NOTICES.md。
  源码位置（纯文本，可复制）：
    https://github.com/yuunnn-w/AzusaAI-WebUI （目录 rust-proxy/）

");
}

proof fn environment_has_no_return()
    ensures
        text::free_of_returns(ENVIRONMENT@),
{
    reveal_strlit("  构建目标：Windows 7 SP1+ x64（win7 目标 + VC-LTL5/YY-Thunks 两层垫片）

这一页的正文可以整段选中复制（正文框右上角有「复制全文」）；参数全文以「--help」为准。
");
}

/// What stands below a heading begins on a new line and ends one, and has no carriage
/// return.
pub proof fn chapter_text_is_lines(index: int)
    requires
        0 <= index < 8,
    ensures
        text::free_of_returns(CHAPTER_TEXTS[index]@),
        CHAPTER_TEXTS[index]@.len() > 0,
        CHAPTER_TEXTS[index]@[0] == '\n',
        CHAPTER_TEXTS[index]@.last() == '\n',
{
    what_it_is_is_lines();
    quick_start_is_lines();
    addresses_is_lines();
    parameters_is_lines();
    questions_is_lines();
    trouble_is_lines();
    safety_is_lines();
    licence_is_lines();
}

/// A heading is one line.
pub proof fn heading_is_one_line(index: int)
    requires
        0 <= index < 8,
    ensures
        text::free_of_returns(about_text::heading(index)),
        text::free_of_feeds(about_text::heading(index)),
{
    reveal_strlit("第");
    reveal_strlit("章 · ");
    reveal_strlit("一");
    reveal_strlit("二");
    reveal_strlit("三");
    reveal_strlit("四");
    reveal_strlit("五");
    reveal_strlit("六");
    reveal_strlit("七");
    reveal_strlit("八");
    reveal_strlit("这是什么");
    reveal_strlit("快速开始");
    reveal_strlit("地址怎么填");
    reveal_strlit("参数说明");
    reveal_strlit("常见问题");
    reveal_strlit("排错");
    reveal_strlit("安全与保密");
    reveal_strlit("许可与环境");
    assert(text::free_of_returns(CHAPTER_NUMERALS[index]@));
    assert(text::free_of_returns(CHAPTER_LABELS[index]@));
    assert(text::free_of_feeds(CHAPTER_NUMERALS[index]@));
    assert(text::free_of_feeds(CHAPTER_LABELS[index]@));
}

proof fn chapters_have_no_return(count: nat, version: Seq<char>, os: Seq<char>)
    requires
        count <= 8,
        text::free_of_returns(version),
        text::free_of_returns(os),
    ensures
        text::free_of_returns(about_text::chapters_before(count, version, os)),
    decreases count,
{
    if count > 0 {
        chapters_have_no_return((count - 1) as nat, version, os);
        heading_is_one_line(count - 1);
        chapter_text_is_lines(count - 1);
        environment_has_no_return();
        reveal_strlit("环境（本次运行）\n  版本：v");
        reveal_strlit("\n  运行 OS：");
        reveal_strlit("\n");
    }
}

/// The text that the control gets: carriage returns stand only before line feeds and
/// line feeds only behind carriage returns, and undoing the pairs gives the tutorial
/// back; whatever version and system it names, on one line each.
pub proof fn tutorial_breaks_can_be_undone(version: Seq<char>, os: Seq<char>)
    requires
        text::free_of_returns(version),
        text::free_of_returns(os),
    ensures
        text::breaks_in_pairs(text::crlf(about_text::tutorial(version, os))),
        text::pairs_undone(text::crlf(about_text::tutorial(version, os))) == about_text::tutorial(
            version,
            os,
        ),
{
    chapters_have_no_return(8, version, os);
    text::crlf_can_be_undone(about_text::tutorial(version, os));
}

} // verus!
