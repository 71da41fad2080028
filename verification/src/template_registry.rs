//! Fallback chat templates for known model families, keyed on the architecture
//! string (not the model name) so that they apply to every variant of a family.
//! They are used when a model's own template fails validation or is absent.

use vstd::prelude::*;
use crate::text::{occurs_at, seq_contains, str_contains, str_eq};

verus! {

/// Unicode lowercase mapping of a string, as `str::to_lowercase` computes it.
pub uninterp spec fn lowercase(s: Seq<char>) -> Seq<char>;

/// Calls `str::to_lowercase`; the result is the Unicode lowercase mapping of `s`,
/// which depends on the characters of `s` alone (no locale is consulted).
#[verifier::external_body]
fn to_lowercase(s: &str) -> (r: String)
    ensures
        r@ == lowercase(s@),
{
    s.to_lowercase()
}

/// A family of model architectures that share one chat template.
#[derive(Clone, Copy, Debug, PartialEq, Eq, Structural)]
pub enum ArchFamily {
    /// Qwen, Yi, DeepSeek and generic ChatML models.
    ChatMl,
    /// Llama 3 models.
    Llama3,
    /// Mistral and Ministral models.
    Mistral,
    /// Phi models.
    Phi,
    /// Gemma models.
    Gemma,
    /// GLM models.
    Glm,
}

/// The family of an already lowercased architecture string; the first matching rule wins.
pub open spec fn family_of(arch_lower: Seq<char>) -> Option<ArchFamily> {
    if seq_contains(arch_lower, "qwen"@) || seq_contains(arch_lower, "yi"@) || seq_contains(
        arch_lower,
        "deepseek"@,
    ) || seq_contains(arch_lower, "chatml"@) {
        Some(ArchFamily::ChatMl)
    } else if seq_contains(arch_lower, "llama3"@) || arch_lower == "llama"@ {
        Some(ArchFamily::Llama3)
    } else if seq_contains(arch_lower, "mistral"@) || seq_contains(arch_lower, "ministral"@) {
        Some(ArchFamily::Mistral)
    } else if seq_contains(arch_lower, "phi"@) {
        Some(ArchFamily::Phi)
    } else if seq_contains(arch_lower, "gemma"@) {
        Some(ArchFamily::Gemma)
    } else if seq_contains(arch_lower, "glm"@) {
        Some(ArchFamily::Glm)
    } else {
        None
    }
}

/// The family of a lowercased architecture string, or `None` when it is not recognized.
pub fn family_of_lowercase(arch_lower: &str) -> (f: Option<ArchFamily>)
    ensures
        f == family_of(arch_lower@),
{
    if str_contains(arch_lower, "qwen") || str_contains(arch_lower, "yi") || str_contains(
        arch_lower,
        "deepseek",
    ) || str_contains(arch_lower, "chatml") {
        return Some(ArchFamily::ChatMl);
    }
    if str_contains(arch_lower, "llama3") || str_eq(arch_lower, "llama") {
        return Some(ArchFamily::Llama3);
    }
    if str_contains(arch_lower, "mistral") || str_contains(arch_lower, "ministral") {
        return Some(ArchFamily::Mistral);
    }
    if str_contains(arch_lower, "phi") {
        return Some(ArchFamily::Phi);
    }
    if str_contains(arch_lower, "gemma") {
        return Some(ArchFamily::Gemma);
    }
    if str_contains(arch_lower, "glm") {
        return Some(ArchFamily::Glm);
    }
    None
}

/// The fallback template of a family.
pub open spec fn family_template(f: ArchFamily) -> &'static str {
    match f {
        ArchFamily::ChatMl => CHATML_TEMPLATE,
        ArchFamily::Llama3 => LLAMA3_TEMPLATE,
        ArchFamily::Mistral => MISTRAL_TEMPLATE,
        ArchFamily::Phi => PHI_TEMPLATE,
        ArchFamily::Gemma => GEMMA_TEMPLATE,
        ArchFamily::Glm => GLM_TEMPLATE,
    }
}

/// The role markers that a correctly rendered template of a family must contain.
pub open spec fn family_markers(f: ArchFamily) -> Seq<&'static str> {
    match f {
        ArchFamily::ChatMl => seq!["<|im_start|>", "<|im_end|>"],
        ArchFamily::Llama3 => seq!["<|start_header_id|>", "<|end_header_id|>"],
        ArchFamily::Mistral => seq!["[INST]", "[/INST]"],
        ArchFamily::Phi => seq!["<|user|>", "<|end|>"],
        ArchFamily::Gemma => seq!["<start_of_turn>", "<end_of_turn>"],
        ArchFamily::Glm => seq!["<|user|>", "<|assistant|>"],
    }
}

/// The fallback template of a family.
pub fn template_of_family(f: ArchFamily) -> (t: &'static str)
    ensures
        t == family_template(f),
{
    match f {
        ArchFamily::ChatMl => CHATML_TEMPLATE,
        ArchFamily::Llama3 => LLAMA3_TEMPLATE,
        ArchFamily::Mistral => MISTRAL_TEMPLATE,
        ArchFamily::Phi => PHI_TEMPLATE,
        ArchFamily::Gemma => GEMMA_TEMPLATE,
        ArchFamily::Glm => GLM_TEMPLATE,
    }
}

/// The expected role markers of a family.
pub fn markers_of_family(f: ArchFamily) -> (m: &'static [&'static str])
    ensures
        m@ == family_markers(f),
{
    match f {
        ArchFamily::ChatMl => &["<|im_start|>", "<|im_end|>"],
        ArchFamily::Llama3 => &["<|start_header_id|>", "<|end_header_id|>"],
        ArchFamily::Mistral => &["[INST]", "[/INST]"],
        ArchFamily::Phi => &["<|user|>", "<|end|>"],
        ArchFamily::Gemma => &["<start_of_turn>", "<end_of_turn>"],
        ArchFamily::Glm => &["<|user|>", "<|assistant|>"],
    }
}

/// A known-good fallback chat template for a model architecture, or `None` when the
/// architecture is not recognized. Matching is case-insensitive.
pub fn get_fallback_template(arch: &str) -> (t: Option<&'static str>)
    ensures
        t == (match family_of(lowercase(arch@)) {
            Some(f) => Some(family_template(f)),
            None => None,
        }),
{
    let arch_lower = to_lowercase(arch);
    match family_of_lowercase(arch_lower.as_str()) {
        Some(f) => Some(template_of_family(f)),
        None => None,
    }
}

/// The role markers that a rendered template of this architecture's family must contain;
/// empty for an unknown family. Used to validate templates.
pub fn get_expected_markers(arch: &str) -> (m: &'static [&'static str])
    ensures
        m@ == (match family_of(lowercase(arch@)) {
            Some(f) => family_markers(f),
            None => Seq::empty(),
        }),
{
    let arch_lower = to_lowercase(arch);
    match family_of_lowercase(arch_lower.as_str()) {
        Some(f) => markers_of_family(f),
        None => &[],
    }
}

/// ChatML template (Qwen, Yi, DeepSeek, generic).
/// Supports thinking mode via `enable_thinking` variable.
pub const CHATML_TEMPLATE: &'static str = r#"{%- for message in messages %}
{%- if message.role == "system" %}
<|im_start|>system
{{ message.content }}<|im_end|>
{% elif message.role == "user" %}
<|im_start|>user
{{ message.content }}<|im_end|>
{% elif message.role == "assistant" %}
<|im_start|>assistant
{{ message.content }}<|im_end|>
{% elif message.role == "tool" %}
<|im_start|>tool
{{ message.content }}<|im_end|>
{% endif %}
{%- endfor %}
{%- if add_generation_prompt %}
<|im_start|>assistant
{% if enable_thinking is defined and enable_thinking %}<think>
{% endif %}
{%- endif %}"#;

/// Llama 3 template.
pub const LLAMA3_TEMPLATE: &'static str = r#"<|begin_of_text|>{%- for message in messages %}
{%- if message.role == "system" %}
<|start_header_id|>system<|end_header_id|>

{{ message.content }}<|eot_id|>
{%- elif message.role == "user" %}
<|start_header_id|>user<|end_header_id|>

{{ message.content }}<|eot_id|>
{%- elif message.role == "assistant" %}
<|start_header_id|>assistant<|end_header_id|>

{{ message.content }}<|eot_id|>
{%- elif message.role == "tool" %}
<|start_header_id|>ipython<|end_header_id|>

{{ message.content }}<|eot_id|>
{%- endif %}
{%- endfor %}
{%- if add_generation_prompt %}
<|start_header_id|>assistant<|end_header_id|>

{% endif %}"#;

/// Mistral template.
pub const MISTRAL_TEMPLATE: &'static str = r#"{%- for message in messages %}
{%- if message.role == "user" %}
[INST] {{ message.content }} [/INST]
{%- elif message.role == "assistant" %}
{{ message.content }}</s>
{%- elif message.role == "system" %}
[INST] {{ message.content }}

{% endif %}
{%- endfor %}"#;

/// Phi template.
pub const PHI_TEMPLATE: &'static str = r#"{%- for message in messages %}
{%- if message.role == "system" %}
<|system|>
{{ message.content }}<|end|>
{%- elif message.role == "user" %}
<|user|>
{{ message.content }}<|end|>
{%- elif message.role == "assistant" %}
<|assistant|>
{{ message.content }}<|end|>
{%- endif %}
{%- endfor %}
{%- if add_generation_prompt %}
<|assistant|>
{% endif %}"#;

/// Gemma template.
pub const GEMMA_TEMPLATE: &'static str = r#"{%- for message in messages %}
{%- if message.role == "user" %}
<start_of_turn>user
{{ message.content }}<end_of_turn>
{%- elif message.role == "assistant" %}
<start_of_turn>model
{{ message.content }}<end_of_turn>
{%- endif %}
{%- endfor %}
{%- if add_generation_prompt %}
<start_of_turn>model
{% endif %}"#;

/// GLM template.
pub const GLM_TEMPLATE: &'static str = r#"[gMASK]<sop>{%- for message in messages %}
{%- if message.role == "system" %}
<|system|>
{{ message.content }}
{%- elif message.role == "user" %}
<|user|>
{{ message.content }}
{%- elif message.role == "assistant" %}
<|assistant|>
{{ message.content }}
{%- endif %}
{%- endfor %}
{%- if add_generation_prompt %}
<|assistant|>
{% endif %}"#;

/// `marker` occurs in `template` at position `at`.
proof fn lemma_marker_at(template: &str, marker: &str, at: int)
    requires
        0 <= at,
        at + marker@.len() <= template@.len(),
        forall|k: int| 0 <= k < marker@.len() ==> template@[at + k] == #[trigger] marker@[k],
    ensures
        seq_contains(template@, marker@),
{
    assert(template@.subrange(at, at + marker@.len()) =~= marker@);
    assert(occurs_at(template@, marker@, at));
}

/// Every fallback template holds the role markers expected of its family, so a fallback
/// template always passes marker validation.
pub proof fn lemma_fallback_has_markers(f: ArchFamily, i: int)
    requires
        0 <= i < family_markers(f).len(),
    ensures
        seq_contains(family_template(f)@, family_markers(f)[i]@),
{
    match f {
        ArchFamily::ChatMl => {
            reveal_strlit(r#"{%- for message in messages %}
{%- if message.role == "system" %}
<|im_start|>system
{{ message.content }}<|im_end|>
{% elif message.role == "user" %}
<|im_start|>user
{{ message.content }}<|im_end|>
{% elif message.role == "assistant" %}
<|im_start|>assistant
{{ message.content }}<|im_end|>
{% elif message.role == "tool" %}
<|im_start|>tool
{{ message.content }}<|im_end|>
{% endif %}
{%- endfor %}
{%- if add_generation_prompt %}
<|im_start|>assistant
{% if enable_thinking is defined and enable_thinking %}<think>
{% endif %}
{%- endif %}"#);
            reveal_strlit("<|im_start|>");
            reveal_strlit("<|im_end|>");
            lemma_marker_at(CHATML_TEMPLATE, "<|im_start|>", 66);
            lemma_marker_at(CHATML_TEMPLATE, "<|im_end|>", 106);
        },
        ArchFamily::Llama3 => {
            reveal_strlit(r#"<|begin_of_text|>{%- for message in messages %}
{%- if message.role == "system" %}
<|start_header_id|>system<|end_header_id|>

{{ message.content }}<|eot_id|>
{%- elif message.role == "user" %}
<|start_header_id|>user<|end_header_id|>

{{ message.content }}<|eot_id|>
{%- elif message.role == "assistant" %}
<|start_header_id|>assistant<|end_header_id|>

{{ message.content }}<|eot_id|>
{%- elif message.role == "tool" %}
<|start_header_id|>ipython<|end_header_id|>

{{ message.content }}<|eot_id|>
{%- endif %}
{%- endfor %}
{%- if add_generation_prompt %}
<|start_header_id|>assistant<|end_header_id|>

{% endif %}"#);
            reveal_strlit("<|start_header_id|>");
            reveal_strlit("<|end_header_id|>");
            lemma_marker_at(LLAMA3_TEMPLATE, "<|start_header_id|>", 83);
            lemma_marker_at(LLAMA3_TEMPLATE, "<|end_header_id|>", 108);
        },
        ArchFamily::Mistral => {
            reveal_strlit(r#"{%- for message in messages %}
{%- if message.role == "user" %}
[INST] {{ message.content }} [/INST]
{%- elif message.role == "assistant" %}
{{ message.content }}</s>
{%- elif message.role == "system" %}
[INST] {{ message.content }}

{% endif %}
{%- endfor %}"#);
            reveal_strlit("[INST]");
            reveal_strlit("[/INST]");
            lemma_marker_at(MISTRAL_TEMPLATE, "[INST]", 64);
            lemma_marker_at(MISTRAL_TEMPLATE, "[/INST]", 93);
        },
        ArchFamily::Phi => {
            reveal_strlit(r#"{%- for message in messages %}
{%- if message.role == "system" %}
<|system|>
{{ message.content }}<|end|>
{%- elif message.role == "user" %}
<|user|>
{{ message.content }}<|end|>
{%- elif message.role == "assistant" %}
<|assistant|>
{{ message.content }}<|end|>
{%- endif %}
{%- endfor %}
{%- if add_generation_prompt %}
<|assistant|>
{% endif %}"#);
            reveal_strlit("<|user|>");
            reveal_strlit("<|end|>");
            lemma_marker_at(PHI_TEMPLATE, "<|user|>", 141);
            lemma_marker_at(PHI_TEMPLATE, "<|end|>", 98);
        },
        ArchFamily::Gemma => {
            reveal_strlit(r#"{%- for message in messages %}
{%- if message.role == "user" %}
<start_of_turn>user
{{ message.content }}<end_of_turn>
{%- elif message.role == "assistant" %}
<start_of_turn>model
{{ message.content }}<end_of_turn>
{%- endif %}
{%- endfor %}
{%- if add_generation_prompt %}
<start_of_turn>model
{% endif %}"#);
            reveal_strlit("<start_of_turn>");
            reveal_strlit("<end_of_turn>");
            lemma_marker_at(GEMMA_TEMPLATE, "<start_of_turn>", 64);
            lemma_marker_at(GEMMA_TEMPLATE, "<end_of_turn>", 105);
        },
        ArchFamily::Glm => {
            reveal_strlit(r#"[gMASK]<sop>{%- for message in messages %}
{%- if message.role == "system" %}
<|system|>
{{ message.content }}
{%- elif message.role == "user" %}
<|user|>
{{ message.content }}
{%- elif message.role == "assistant" %}
<|assistant|>
{{ message.content }}
{%- endif %}
{%- endfor %}
{%- if add_generation_prompt %}
<|assistant|>
{% endif %}"#);
            reveal_strlit("<|user|>");
            reveal_strlit("<|assistant|>");
            lemma_marker_at(GLM_TEMPLATE, "<|user|>", 146);
            lemma_marker_at(GLM_TEMPLATE, "<|assistant|>", 217);
        },
    }
}

} // verus!
