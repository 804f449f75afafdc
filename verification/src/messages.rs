//! Localized user-visible messages for worker startup progress and for the
//! tray menu.  The worker reports its progress in its own language; the
//! messages shown for it follow the configured interface language.

use vstd::prelude::*;

use crate::strutil::str_eq;

verus! {

/// The message shown for a message key under a language ("en" or the
/// default).  An unknown key is shown as itself.
pub open spec fn spec_daemon_message(key: Seq<char>, lang: Seq<char>) -> Seq<char> {
    let en = lang == "en"@;
    if key == "ready"@ {
        if en {
            "Ready"@
        } else {
            "就绪"@
        }
    } else if key == "starting"@ {
        if en {
            "Starting voice service..."@
        } else {
            "正在启动语音服务..."@
        }
    } else if key == "initializing"@ {
        if en {
            "Initializing voice service..."@
        } else {
            "正在初始化语音服务..."@
        }
    } else if key == "loading_assistant"@ {
        if en {
            "Loading voice assistant..."@
        } else {
            "正在加载语音助手..."@
        }
    } else if key == "loading_asr"@ {
        if en {
            "Loading speech recognition model..."@
        } else {
            "正在加载语音识别模型..."@
        }
    } else if key == "loading_llm"@ {
        if en {
            "Loading language model..."@
        } else {
            "正在加载语言模型..."@
        }
    } else if key == "loading_tts"@ {
        if en {
            "Loading text-to-speech model..."@
        } else {
            "正在加载语音合成模型..."@
        }
    } else if key == "service_ready"@ {
        if en {
            "Voice service ready"@
        } else {
            "语音服务已就绪"@
        }
    } else if key == "init_success"@ {
        if en {
            "Initialization successful"@
        } else {
            "初始化成功"@
        }
    } else if key == "loading"@ {
        if en {
            "Loading..."@
        } else {
            "正在加载..."@
        }
    } else if key == "startup_failed"@ {
        if en {
            "Startup failed"@
        } else {
            "启动失败"@
        }
    } else if key == "config_dir_error"@ {
        if en {
            "Cannot get config directory"@
        } else {
            "无法获取配置目录"@
        }
    } else if key == "stdin_error"@ {
        if en {
            "Cannot get process input stream"@
        } else {
            "无法获取进程输入流"@
        }
    } else if key == "stdout_error"@ {
        if en {
            "Cannot get process output stream"@
        } else {
            "无法获取进程输出流"@
        }
    } else if key == "stderr_error"@ {
        if en {
            "Cannot get process error stream"@
        } else {
            "无法获取进程错误流"@
        }
    } else if key == "daemon_exited"@ {
        if en {
            "Voice service exited unexpectedly"@
        } else {
            "语音服务意外退出"@
        }
    } else if key == "read_error"@ {
        if en {
            "Failed to read output"@
        } else {
            "读取输出失败"@
        }
    } else if key == "timeout"@ {
        if en {
            "Voice service startup timeout. If downloading models, please wait 3 minutes and restart"@
        } else {
            "语音服务启动超时。如果是首次启动需要下载模型，请等待3分钟后重启应用"@
        }
    } else if key == "resource_limits_failed"@ {
        if en {
            "Failed to set resource limits, continuing..."@
        } else {
            "资源限制设置失败，继续启动..."@
        }
    } else {
        key
    }
}

/// The localized startup message for a message key.
pub fn get_daemon_message(message_key: &str, language: &str) -> (r: String)
    ensures
        r@ == spec_daemon_message(message_key@, language@),
{
    let en = str_eq(language, "en");
    if str_eq(message_key, "ready") {
        if en {
            "Ready".to_owned()
        } else {
            "就绪".to_owned()
        }
    } else if str_eq(message_key, "starting") {
        if en {
            "Starting voice service...".to_owned()
        } else {
            "正在启动语音服务...".to_owned()
        }
    } else if str_eq(message_key, "initializing") {
        if en {
            "Initializing voice service...".to_owned()
        } else {
            "正在初始化语音服务...".to_owned()
        }
    } else if str_eq(message_key, "loading_assistant") {
        if en {
            "Loading voice assistant...".to_owned()
        } else {
            "正在加载语音助手...".to_owned()
        }
    } else if str_eq(message_key, "loading_asr") {
        if en {
            "Loading speech recognition model...".to_owned()
        } else {
            "正在加载语音识别模型...".to_owned()
        }
    } else if str_eq(message_key, "loading_llm") {
        if en {
            "Loading language model...".to_owned()
        } else {
            "正在加载语言模型...".to_owned()
        }
    } else if str_eq(message_key, "loading_tts") {
        if en {
            "Loading text-to-speech model...".to_owned()
        } else {
            "正在加载语音合成模型...".to_owned()
        }
    } else if str_eq(message_key, "service_ready") {
        if en {
            "Voice service ready".to_owned()
        } else {
            "语音服务已就绪".to_owned()
        }
    } else if str_eq(message_key, "init_success") {
        if en {
            "Initialization successful".to_owned()
        } else {
            "初始化成功".to_owned()
        }
    } else if str_eq(message_key, "loading") {
        if en {
            "Loading...".to_owned()
        } else {
            "正在加载...".to_owned()
        }
    } else if str_eq(message_key, "startup_failed") {
        if en {
            "Startup failed".to_owned()
        } else {
            "启动失败".to_owned()
        }
    } else if str_eq(message_key, "config_dir_error") {
        if en {
            "Cannot get config directory".to_owned()
        } else {
            "无法获取配置目录".to_owned()
        }
    } else if str_eq(message_key, "stdin_error") {
        if en {
            "Cannot get process input stream".to_owned()
        } else {
            "无法获取进程输入流".to_owned()
        }
    } else if str_eq(message_key, "stdout_error") {
        if en {
            "Cannot get process output stream".to_owned()
        } else {
            "无法获取进程输出流".to_owned()
        }
    } else if str_eq(message_key, "stderr_error") {
        if en {
            "Cannot get process error stream".to_owned()
        } else {
            "无法获取进程错误流".to_owned()
        }
    } else if str_eq(message_key, "daemon_exited") {
        if en {
            "Voice service exited unexpectedly".to_owned()
        } else {
            "语音服务意外退出".to_owned()
        }
    } else if str_eq(message_key, "read_error") {
        if en {
            "Failed to read output".to_owned()
        } else {
            "读取输出失败".to_owned()
        }
    } else if str_eq(message_key, "timeout") {
        if en {
            "Voice service startup timeout. If downloading models, please wait 3 minutes and restart".to_owned()
        } else {
            "语音服务启动超时。如果是首次启动需要下载模型，请等待3分钟后重启应用".to_owned()
        }
    } else if str_eq(message_key, "resource_limits_failed") {
        if en {
            "Failed to set resource limits, continuing...".to_owned()
        } else {
            "资源限制设置失败，继续启动...".to_owned()
        }
    } else {
        message_key.to_owned()
    }
}

/// The greeting shown by the demonstration command.
pub fn greet(name: &str) -> (r: String)
    ensures
        r@ == "Hello, "@ + name@ + "! You've been greeted from Rust!"@,
{
    let mut out: String = "Hello, ".to_owned();
    out.append(name);
    out.append("! You've been greeted from Rust!");
    proof {
        assert(out@ =~= "Hello, "@ + name@ + "! You've been greeted from Rust!"@);
    }
    out
}

/// The tray menu texts for a language: show window, hide window, quit, and
/// the tooltip.
pub fn get_tray_menu_texts(language: &str) -> (r: (
    &'static str,
    &'static str,
    &'static str,
    &'static str,
))
    ensures
        language@ == "en"@ ==> r.0@ == "Show Window"@ && r.1@ == "Hide Window"@ && r.2@ == "Quit"@
            && r.3@ == "Speekium"@,
        language@ != "en"@ ==> r.0@ == "显示窗口"@ && r.1@ == "隐藏窗口"@ && r.2@ == "退出"@
            && r.3@ == "Speekium"@,
{
    if str_eq(language, "en") {
        ("Show Window", "Hide Window", "Quit", "Speekium")
    } else {
        ("显示窗口", "隐藏窗口", "退出", "Speekium")
    }
}

} // verus!
