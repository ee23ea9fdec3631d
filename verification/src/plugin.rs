use vstd::prelude::*;
use vstd::string::*;
use crate::text::{c_str_bytes, c_str_len, decimal_text, i32_to_decimal, lemma_c_str_of_terminated};
use vstd::utf8::encode_utf8_decode_utf8;

verus! {

/// The category name of an audio processor class, as a plugin factory reports it.
pub const K_VST_AUDIO_EFFECT_CLASS: &'static str = "Audio Module Effect Class";

/// The category name of an edit controller class, as a plugin factory reports it.
pub const K_VST_COMPONENT_CONTROLLER_CLASS: &'static str = "Component Controller Class";

/// The kind of class that a plugin factory offers.
#[derive(Debug, Clone, Copy, PartialEq, Eq, Structural, PartialOrd)]
pub enum ClassCategory {
    VstAudioEffectClass,
    VstComponentControllerClass,
    NotFound,
}

/// The category that a class's category name (the bytes of its C string)
/// stands for.
pub open spec fn category_of_name(name: Seq<u8>) -> ClassCategory {
    if name == K_VST_AUDIO_EFFECT_CLASS.spec_bytes() {
        ClassCategory::VstAudioEffectClass
    } else if name == K_VST_COMPONENT_CONTROLLER_CLASS.spec_bytes() {
        ClassCategory::VstComponentControllerClass
    } else {
        ClassCategory::NotFound
    }
}

/// A category name stands for the audio processor class exactly when it is
/// `K_VST_AUDIO_EFFECT_CLASS`, for the edit controller class exactly when it
/// is `K_VST_COMPONENT_CONTROLLER_CLASS`, and for no category otherwise.
pub proof fn lemma_category_of_name(name: Seq<u8>)
    ensures
        category_of_name(name) == ClassCategory::VstAudioEffectClass <==> name
            == K_VST_AUDIO_EFFECT_CLASS.spec_bytes(),
        category_of_name(name) == ClassCategory::VstComponentControllerClass <==> name
            == K_VST_COMPONENT_CONTROLLER_CLASS.spec_bytes(),
        category_of_name(name) == ClassCategory::NotFound <==> (name
            != K_VST_AUDIO_EFFECT_CLASS.spec_bytes() && name
            != K_VST_COMPONENT_CONTROLLER_CLASS.spec_bytes()),
{
    reveal_strlit("Audio Module Effect Class");
    reveal_strlit("Component Controller Class");
    encode_utf8_decode_utf8(K_VST_AUDIO_EFFECT_CLASS@);
    encode_utf8_decode_utf8(K_VST_COMPONENT_CONTROLLER_CLASS@);
    assert(K_VST_AUDIO_EFFECT_CLASS@.len() != K_VST_COMPONENT_CONTROLLER_CLASS@.len());
    assert(K_VST_AUDIO_EFFECT_CLASS.spec_bytes() != K_VST_COMPONENT_CONTROLLER_CLASS.spec_bytes());
}

/// The category of a class whose category buffer holds the bytes `s` (no NUL
/// among them), a NUL and anything after, is the one that `s` names.
pub proof fn lemma_category_of_terminated_buffer(s: Seq<u8>, rest: Seq<u8>)
    requires
        forall|i: int| 0 <= i < s.len() ==> s[i] != 0,
    ensures
        category_of_name(c_str_bytes(s + seq![0u8] + rest)) == category_of_name(s),
{
    lemma_c_str_of_terminated(s, rest);
}

/// Whether the C string held in `buf` has exactly the bytes `expected`.
fn c_str_equals(buf: &[u8], expected: &[u8]) -> (r: bool)
    ensures
        r == (c_str_bytes(buf@) == expected@),
{
    let n = c_str_len(buf);
    if n != expected.len() {
        return false;
    }
    let mut i: usize = 0;
    while i < n
        invariant
            n == expected@.len(),
            n <= buf@.len(),
            c_str_bytes(buf@) == buf@.subrange(0, n as int),
            i <= n,
            forall|j: int| 0 <= j < i ==> buf@[j] == expected@[j],
        decreases n - i,
    {
        if buf[i] != expected[i] {
            assert(c_str_bytes(buf@)[i as int] != expected@[i as int]);
            return false;
        }
        i = i + 1;
    }
    assert(buf@.subrange(0, n as int) =~= expected@);
    true
}

impl ClassCategory {
    /// The category named by the C string that a class-info record holds in its
    /// fixed `category` buffer (the bytes before the first NUL).
    pub fn from_c_chars(buf: &[u8]) -> (r: ClassCategory)
        ensures
            r == category_of_name(c_str_bytes(buf@)),
    {
        if c_str_equals(buf, K_VST_AUDIO_EFFECT_CLASS.as_bytes()) {
            ClassCategory::VstAudioEffectClass
        } else if c_str_equals(buf, K_VST_COMPONENT_CONTROLLER_CLASS.as_bytes()) {
            ClassCategory::VstComponentControllerClass
        } else {
            ClassCategory::NotFound
        }
    }
}

/// What a plugin factory says of its vendor.
#[derive(Debug, Clone, PartialEq, PartialOrd)]
pub struct PluginMetadata {
    pub url: String,
    pub email: String,
    pub vendor: String,
}

/// What a plugin factory says of one of its classes.
#[derive(Debug, Clone, PartialEq, PartialOrd)]
pub struct ClassMetadata {
    pub name: String,
    pub category: ClassCategory,
}

/// Failures in loading a plugin module.
#[derive(Debug, Clone, PartialEq, PartialOrd)]
pub enum PluginError {
    EntryFailed,
    PluginClassError(String),
}

/// Failures in instantiating one class of a plugin.
#[derive(Debug, Clone, PartialEq, PartialOrd)]
pub enum PluginClassError {
    ClassInstantiationFailed(String, i32),
}

/// The message of a module failure, with the text that each variant displays.
pub open spec fn plugin_error_message(e: PluginError) -> Seq<char> {
    match e {
        PluginError::EntryFailed => "Failed to instantiate module"@,
        PluginError::PluginClassError(s) => "Failed to instantiate one or more classes: "@ + s@,
    }
}

/// The message of a class failure: the class's name and the error code.
pub open spec fn plugin_class_error_message(e: PluginClassError) -> Seq<char> {
    match e {
        PluginClassError::ClassInstantiationFailed(name, code) => "Failed to instantiate class '"@
            + name@ + "' with error code '"@ + decimal_text(code as int) + "'"@,
    }
}

impl PluginError {
    /// The text that this failure displays.
    pub fn message(&self) -> (r: String)
        ensures
            r@ == plugin_error_message(*self),
    {
        match self {
            PluginError::EntryFailed => String::from_str("Failed to instantiate module"),
            PluginError::PluginClassError(s) => {
                let mut m = String::from_str("Failed to instantiate one or more classes: ");
                m.append(s.as_str());
                m
            },
        }
    }
}

impl PluginClassError {
    /// The text that this failure displays.
    pub fn message(&self) -> (r: String)
        ensures
            r@ == plugin_class_error_message(*self),
    {
        match self {
            PluginClassError::ClassInstantiationFailed(name, code) => {
                let mut m = String::from_str("Failed to instantiate class '");
                m.append(name.as_str());
                m.append("' with error code '");
                let digits = i32_to_decimal(*code);
                m.append(digits.as_str());
                m.append("'");
                m
            },
        }
    }
}

} // verus!
