//! Identifiers of API resources, and the models and voices the API offers
//! under fixed identifiers.
use vstd::prelude::*;

use crate::text::owned;

verus! {

broadcast use vstd::string::group_string_axioms;

/// The identifier of a resource, named `:pronunciation_dictionary_id` in path templates.
#[derive(Clone, Debug)]
pub struct DictionaryID {
    pub _inner: String,
}

impl DictionaryID {
    /// The placeholder this identifier fills in a path template.
    pub fn placeholder() -> (p: &'static str)
        ensures
            p@ == ":pronunciation_dictionary_id"@,
    {
        ":pronunciation_dictionary_id"
    }

    /// An identifier with the given value.
    pub fn from_str(id: &str) -> (r: Self)
        ensures
            r._inner@ == id@,
    {
        DictionaryID { _inner: owned(id) }
    }

    /// The value of the identifier.
    pub fn get_value(&self) -> (v: &str)
        ensures
            v@ == self._inner@,
    {
        self._inner.as_str()
    }

    /// The placeholder and the value, as a path parameter.
    pub fn as_path_param(&self) -> (p: (&'static str, String))
        ensures
            p.0@ == ":pronunciation_dictionary_id"@,
            p.1@ == self._inner@,
    {
        (":pronunciation_dictionary_id", self._inner.clone())
    }
}

/// The identifier of a resource, named `:dubbing_id` in path templates.
#[derive(Clone, Debug)]
pub struct DubbingID {
    pub _inner: String,
}

impl DubbingID {
    /// The placeholder this identifier fills in a path template.
    pub fn placeholder() -> (p: &'static str)
        ensures
            p@ == ":dubbing_id"@,
    {
        ":dubbing_id"
    }

    /// An identifier with the given value.
    pub fn from_str(id: &str) -> (r: Self)
        ensures
            r._inner@ == id@,
    {
        DubbingID { _inner: owned(id) }
    }

    /// The value of the identifier.
    pub fn get_value(&self) -> (v: &str)
        ensures
            v@ == self._inner@,
    {
        self._inner.as_str()
    }

    /// The placeholder and the value, as a path parameter.
    pub fn as_path_param(&self) -> (p: (&'static str, String))
        ensures
            p.0@ == ":dubbing_id"@,
            p.1@ == self._inner@,
    {
        (":dubbing_id", self._inner.clone())
    }
}

/// The identifier of a resource, named `:history_item_id` in path templates.
#[derive(Clone, Debug)]
pub struct HistoryItemID {
    pub _inner: String,
}

impl HistoryItemID {
    /// The placeholder this identifier fills in a path template.
    pub fn placeholder() -> (p: &'static str)
        ensures
            p@ == ":history_item_id"@,
    {
        ":history_item_id"
    }

    /// An identifier with the given value.
    pub fn from_str(id: &str) -> (r: Self)
        ensures
            r._inner@ == id@,
    {
        HistoryItemID { _inner: owned(id) }
    }

    /// The value of the identifier.
    pub fn get_value(&self) -> (v: &str)
        ensures
            v@ == self._inner@,
    {
        self._inner.as_str()
    }

    /// The placeholder and the value, as a path parameter.
    pub fn as_path_param(&self) -> (p: (&'static str, String))
        ensures
            p.0@ == ":history_item_id"@,
            p.1@ == self._inner@,
    {
        (":history_item_id", self._inner.clone())
    }
}

/// The identifier of a resource, named `:model_id` in path templates.
#[derive(Clone, Debug)]
pub struct ModelID {
    pub _inner: String,
}

impl ModelID {
    /// The placeholder this identifier fills in a path template.
    pub fn placeholder() -> (p: &'static str)
        ensures
            p@ == ":model_id"@,
    {
        ":model_id"
    }

    /// An identifier with the given value.
    pub fn from_str(id: &str) -> (r: Self)
        ensures
            r._inner@ == id@,
    {
        ModelID { _inner: owned(id) }
    }

    /// The value of the identifier.
    pub fn get_value(&self) -> (v: &str)
        ensures
            v@ == self._inner@,
    {
        self._inner.as_str()
    }

    /// The placeholder and the value, as a path parameter.
    pub fn as_path_param(&self) -> (p: (&'static str, String))
        ensures
            p.0@ == ":model_id"@,
            p.1@ == self._inner@,
    {
        (":model_id", self._inner.clone())
    }
}

/// The identifier of a resource, named `:language_code` in path templates.
#[derive(Clone, Debug)]
pub struct LanguageCodeID {
    pub _inner: String,
}

impl LanguageCodeID {
    /// The placeholder this identifier fills in a path template.
    pub fn placeholder() -> (p: &'static str)
        ensures
            p@ == ":language_code"@,
    {
        ":language_code"
    }

    /// An identifier with the given value.
    pub fn from_str(id: &str) -> (r: Self)
        ensures
            r._inner@ == id@,
    {
        LanguageCodeID { _inner: owned(id) }
    }

    /// The value of the identifier.
    pub fn get_value(&self) -> (v: &str)
        ensures
            v@ == self._inner@,
    {
        self._inner.as_str()
    }

    /// The placeholder and the value, as a path parameter.
    pub fn as_path_param(&self) -> (p: (&'static str, String))
        ensures
            p.0@ == ":language_code"@,
            p.1@ == self._inner@,
    {
        (":language_code", self._inner.clone())
    }
}

/// The identifier of a resource, named `:public_user_id` in path templates.
#[derive(Clone, Debug)]
pub struct PublicUserID {
    pub _inner: String,
}

impl PublicUserID {
    /// The placeholder this identifier fills in a path template.
    pub fn placeholder() -> (p: &'static str)
        ensures
            p@ == ":public_user_id"@,
    {
        ":public_user_id"
    }

    /// An identifier with the given value.
    pub fn from_str(id: &str) -> (r: Self)
        ensures
            r._inner@ == id@,
    {
        PublicUserID { _inner: owned(id) }
    }

    /// The value of the identifier.
    pub fn get_value(&self) -> (v: &str)
        ensures
            v@ == self._inner@,
    {
        self._inner.as_str()
    }

    /// The placeholder and the value, as a path parameter.
    pub fn as_path_param(&self) -> (p: (&'static str, String))
        ensures
            p.0@ == ":public_user_id"@,
            p.1@ == self._inner@,
    {
        (":public_user_id", self._inner.clone())
    }
}

/// The identifier of a resource, named `:sample_id` in path templates.
#[derive(Clone, Debug)]
pub struct SampleID {
    pub _inner: String,
}

impl SampleID {
    /// The placeholder this identifier fills in a path template.
    pub fn placeholder() -> (p: &'static str)
        ensures
            p@ == ":sample_id"@,
    {
        ":sample_id"
    }

    /// An identifier with the given value.
    pub fn from_str(id: &str) -> (r: Self)
        ensures
            r._inner@ == id@,
    {
        SampleID { _inner: owned(id) }
    }

    /// The value of the identifier.
    pub fn get_value(&self) -> (v: &str)
        ensures
            v@ == self._inner@,
    {
        self._inner.as_str()
    }

    /// The placeholder and the value, as a path parameter.
    pub fn as_path_param(&self) -> (p: (&'static str, String))
        ensures
            p.0@ == ":sample_id"@,
            p.1@ == self._inner@,
    {
        (":sample_id", self._inner.clone())
    }
}

/// The identifier of a resource, named `:version_id` in path templates.
#[derive(Clone, Debug)]
pub struct VersionID {
    pub _inner: String,
}

impl VersionID {
    /// The placeholder this identifier fills in a path template.
    pub fn placeholder() -> (p: &'static str)
        ensures
            p@ == ":version_id"@,
    {
        ":version_id"
    }

    /// An identifier with the given value.
    pub fn from_str(id: &str) -> (r: Self)
        ensures
            r._inner@ == id@,
    {
        VersionID { _inner: owned(id) }
    }

    /// The value of the identifier.
    pub fn get_value(&self) -> (v: &str)
        ensures
            v@ == self._inner@,
    {
        self._inner.as_str()
    }

    /// The placeholder and the value, as a path parameter.
    pub fn as_path_param(&self) -> (p: (&'static str, String))
        ensures
            p.0@ == ":version_id"@,
            p.1@ == self._inner@,
    {
        (":version_id", self._inner.clone())
    }
}

/// The identifier of a resource, named `:voice_id` in path templates.
#[derive(Clone, Debug)]
pub struct VoiceID {
    pub _inner: String,
}

impl VoiceID {
    /// The placeholder this identifier fills in a path template.
    pub fn placeholder() -> (p: &'static str)
        ensures
            p@ == ":voice_id"@,
    {
        ":voice_id"
    }

    /// An identifier with the given value.
    pub fn from_str(id: &str) -> (r: Self)
        ensures
            r._inner@ == id@,
    {
        VoiceID { _inner: owned(id) }
    }

    /// The value of the identifier.
    pub fn get_value(&self) -> (v: &str)
        ensures
            v@ == self._inner@,
    {
        self._inner.as_str()
    }

    /// The placeholder and the value, as a path parameter.
    pub fn as_path_param(&self) -> (p: (&'static str, String))
        ensures
            p.0@ == ":voice_id"@,
            p.1@ == self._inner@,
    {
        (":voice_id", self._inner.clone())
    }
}

/// The text-to-speech and speech-to-speech models.
#[derive(Clone, Copy, Debug, PartialEq, Eq, Structural)]
pub enum Model {
    ElevenMultilingualV2,
    ElevenMultilingualV1,
    ElevenEnglishV1,
    ElevenEnglishV2,
    ElevenTurboV2,
    ElevenTurboV2_5,
    ElevenMultilingualV2STS,
    ElevenFlashV2,
    ElevenFlashV2_5,
}

/// The model identifier the API expects
pub open spec fn model_id_of(v: Model) -> Seq<char> {
    match v {
        Model::ElevenMultilingualV2 => "eleven_multilingual_v2"@,
        Model::ElevenMultilingualV1 => "eleven_multilingual_v1"@,
        Model::ElevenEnglishV1 => "eleven_monolingual_v1"@,
        Model::ElevenEnglishV2 => "eleven_english_sts_v2"@,
        Model::ElevenTurboV2 => "eleven_turbo_v2"@,
        Model::ElevenTurboV2_5 => "eleven_turbo_v2_5"@,
        Model::ElevenMultilingualV2STS => "eleven_multilingual_sts_v2"@,
        Model::ElevenFlashV2 => "eleven_flash_v2"@,
        Model::ElevenFlashV2_5 => "eleven_flash_v2_5"@,
    }
}

/// The model id of each model.
pub proof fn lemma_model_id_of_table()
    ensures
        model_id_of(Model::ElevenMultilingualV2) == "eleven_multilingual_v2"@,
        model_id_of(Model::ElevenMultilingualV1) == "eleven_multilingual_v1"@,
        model_id_of(Model::ElevenEnglishV1) == "eleven_monolingual_v1"@,
        model_id_of(Model::ElevenEnglishV2) == "eleven_english_sts_v2"@,
        model_id_of(Model::ElevenTurboV2) == "eleven_turbo_v2"@,
        model_id_of(Model::ElevenTurboV2_5) == "eleven_turbo_v2_5"@,
        model_id_of(Model::ElevenMultilingualV2STS) == "eleven_multilingual_sts_v2"@,
        model_id_of(Model::ElevenFlashV2) == "eleven_flash_v2"@,
        model_id_of(Model::ElevenFlashV2_5) == "eleven_flash_v2_5"@,
{
}

impl Model {
    /// The model identifier the API expects
    pub fn as_str(self) -> (s: &'static str)
        ensures
            s@ == model_id_of(self),
    {
        match self {
            Model::ElevenMultilingualV2 => "eleven_multilingual_v2",
            Model::ElevenMultilingualV1 => "eleven_multilingual_v1",
            Model::ElevenEnglishV1 => "eleven_monolingual_v1",
            Model::ElevenEnglishV2 => "eleven_english_sts_v2",
            Model::ElevenTurboV2 => "eleven_turbo_v2",
            Model::ElevenTurboV2_5 => "eleven_turbo_v2_5",
            Model::ElevenMultilingualV2STS => "eleven_multilingual_sts_v2",
            Model::ElevenFlashV2 => "eleven_flash_v2",
            Model::ElevenFlashV2_5 => "eleven_flash_v2_5",
        }
    }

    /// The model identifier the API expects, owned.
    pub fn to_string(self) -> (s: String)
        ensures
            s@ == model_id_of(self),
    {
        owned(self.as_str())
    }

    /// The identifier of this model.
    pub fn to_id(self) -> (r: ModelID)
        ensures
            r._inner@ == model_id_of(self),
    {
        ModelID { _inner: self.to_string() }
    }
}

/// The voices every account has.
#[derive(Clone, Copy, Debug, PartialEq, Eq, Structural)]
pub enum DefaultVoice {
    Aria,
    Roger,
    Sarah,
    Laura,
    Charlie,
    George,
    Callum,
    River,
    Liam,
    Charlotte,
    Alice,
    Matilda,
    Will,
    Jessica,
    Eric,
    Chris,
    Brian,
    Daniel,
    Lily,
    Bill,
}

/// The voice identifier
pub open spec fn default_voice_id(v: DefaultVoice) -> Seq<char> {
    match v {
        DefaultVoice::Aria => "9BWtsMINqrJLrRacOk9x"@,
        DefaultVoice::Roger => "CwhRBWXzGAHq8TQ4Fs17"@,
        DefaultVoice::Sarah => "EXAVITQu4vr4xnSDxMaL"@,
        DefaultVoice::Laura => "FGY2WhTYpPnrIDTdsKH5"@,
        DefaultVoice::Charlie => "IKne3meq5aSn9XLyUdCD"@,
        DefaultVoice::George => "JBFqnCBsd6RMkjVDRZzb"@,
        DefaultVoice::Callum => "N2lVS1w4EtoT3dr4eOWO"@,
        DefaultVoice::River => "SAz9YHcvj6GT2YYXdXww"@,
        DefaultVoice::Liam => "TX3LPaxmHKxFdv7VOQHJ"@,
        DefaultVoice::Charlotte => "XB0fDUnXU5powFXDhCwa"@,
        DefaultVoice::Alice => "Xb7hH8MSUJpSbSDYk0k2"@,
        DefaultVoice::Matilda => "XrExE9yKIg1WjnnlVkGX"@,
        DefaultVoice::Will => "bIHbv24MWmeRgasZH58o"@,
        DefaultVoice::Jessica => "cgSgspJ2msm6clMCkdW9"@,
        DefaultVoice::Eric => "cjVigY5qzO86Huf0OWal"@,
        DefaultVoice::Chris => "iP95p4xoKVk53GoZ742B"@,
        DefaultVoice::Brian => "nPczCjzI2devNBz1zQrb"@,
        DefaultVoice::Daniel => "onwK4e9ZLuTAKqWW03F9"@,
        DefaultVoice::Lily => "pFZP5JQG7iQjIQuC4Bku"@,
        DefaultVoice::Bill => "pqHfZKP75CvOlQylNhV4"@,
    }
}

/// The voice id of each default voice.
pub proof fn lemma_default_voice_id_table()
    ensures
        default_voice_id(DefaultVoice::Aria) == "9BWtsMINqrJLrRacOk9x"@,
        default_voice_id(DefaultVoice::Roger) == "CwhRBWXzGAHq8TQ4Fs17"@,
        default_voice_id(DefaultVoice::Sarah) == "EXAVITQu4vr4xnSDxMaL"@,
        default_voice_id(DefaultVoice::Laura) == "FGY2WhTYpPnrIDTdsKH5"@,
        default_voice_id(DefaultVoice::Charlie) == "IKne3meq5aSn9XLyUdCD"@,
        default_voice_id(DefaultVoice::George) == "JBFqnCBsd6RMkjVDRZzb"@,
        default_voice_id(DefaultVoice::Callum) == "N2lVS1w4EtoT3dr4eOWO"@,
        default_voice_id(DefaultVoice::River) == "SAz9YHcvj6GT2YYXdXww"@,
        default_voice_id(DefaultVoice::Liam) == "TX3LPaxmHKxFdv7VOQHJ"@,
        default_voice_id(DefaultVoice::Charlotte) == "XB0fDUnXU5powFXDhCwa"@,
        default_voice_id(DefaultVoice::Alice) == "Xb7hH8MSUJpSbSDYk0k2"@,
        default_voice_id(DefaultVoice::Matilda) == "XrExE9yKIg1WjnnlVkGX"@,
        default_voice_id(DefaultVoice::Will) == "bIHbv24MWmeRgasZH58o"@,
        default_voice_id(DefaultVoice::Jessica) == "cgSgspJ2msm6clMCkdW9"@,
        default_voice_id(DefaultVoice::Eric) == "cjVigY5qzO86Huf0OWal"@,
        default_voice_id(DefaultVoice::Chris) == "iP95p4xoKVk53GoZ742B"@,
        default_voice_id(DefaultVoice::Brian) == "nPczCjzI2devNBz1zQrb"@,
        default_voice_id(DefaultVoice::Daniel) == "onwK4e9ZLuTAKqWW03F9"@,
        default_voice_id(DefaultVoice::Lily) == "pFZP5JQG7iQjIQuC4Bku"@,
        default_voice_id(DefaultVoice::Bill) == "pqHfZKP75CvOlQylNhV4"@,
{
}

impl DefaultVoice {
    /// The voice identifier
    pub fn as_str(self) -> (s: &'static str)
        ensures
            s@ == default_voice_id(self),
    {
        match self {
            DefaultVoice::Aria => "9BWtsMINqrJLrRacOk9x",
            DefaultVoice::Roger => "CwhRBWXzGAHq8TQ4Fs17",
            DefaultVoice::Sarah => "EXAVITQu4vr4xnSDxMaL",
            DefaultVoice::Laura => "FGY2WhTYpPnrIDTdsKH5",
            DefaultVoice::Charlie => "IKne3meq5aSn9XLyUdCD",
            DefaultVoice::George => "JBFqnCBsd6RMkjVDRZzb",
            DefaultVoice::Callum => "N2lVS1w4EtoT3dr4eOWO",
            DefaultVoice::River => "SAz9YHcvj6GT2YYXdXww",
            DefaultVoice::Liam => "TX3LPaxmHKxFdv7VOQHJ",
            DefaultVoice::Charlotte => "XB0fDUnXU5powFXDhCwa",
            DefaultVoice::Alice => "Xb7hH8MSUJpSbSDYk0k2",
            DefaultVoice::Matilda => "XrExE9yKIg1WjnnlVkGX",
            DefaultVoice::Will => "bIHbv24MWmeRgasZH58o",
            DefaultVoice::Jessica => "cgSgspJ2msm6clMCkdW9",
            DefaultVoice::Eric => "cjVigY5qzO86Huf0OWal",
            DefaultVoice::Chris => "iP95p4xoKVk53GoZ742B",
            DefaultVoice::Brian => "nPczCjzI2devNBz1zQrb",
            DefaultVoice::Daniel => "onwK4e9ZLuTAKqWW03F9",
            DefaultVoice::Lily => "pFZP5JQG7iQjIQuC4Bku",
            DefaultVoice::Bill => "pqHfZKP75CvOlQylNhV4",
        }
    }

    /// The voice identifier, owned.
    pub fn to_string(self) -> (s: String)
        ensures
            s@ == default_voice_id(self),
    {
        owned(self.as_str())
    }

    /// The identifier of this defaultvoice.
    pub fn to_id(self) -> (r: VoiceID)
        ensures
            r._inner@ == default_voice_id(self),
    {
        VoiceID { _inner: self.to_string() }
    }
}

impl Default for DefaultVoice {
    fn default() -> (r: Self)
        ensures
            r == DefaultVoice::Eric,
    {
        DefaultVoice::Eric
    }
}

/// The voices of earlier releases.
#[derive(Clone, Copy, Debug, PartialEq, Eq, Structural)]
pub enum LegacyVoice {
    Adam,
    Antoni,
    Arnold,
    Clyde,
    Dave,
    Dorothy,
    Drew,
    Domi,
    Eli,
    Emily,
    Ethan,
    Fin,
    Freya,
    Gigi,
    Giovanni,
    Glinda,
    Grace,
    Harry,
    James,
    Jessie,
    Jeremy,
    Joseph,
    Josh,
    Michael,
    Mimi,
    Nicole,
    Patrick,
    Paul,
    Rachel,
    Sam,
    Serena,
    Thomas,
}

/// The voice identifier
pub open spec fn legacy_voice_id(v: LegacyVoice) -> Seq<char> {
    match v {
        LegacyVoice::Adam => "pNInz6obpgDQGcFmaJgB"@,
        LegacyVoice::Antoni => "ErXwobaYiN019PkySvjV"@,
        LegacyVoice::Arnold => "VR6AewLTigWG4xSOukaG"@,
        LegacyVoice::Clyde => "2EiwWnXFnvU5JabPnv8n"@,
        LegacyVoice::Dave => "CYw3kZ02Hs0563khs1Fj"@,
        LegacyVoice::Dorothy => "ThT5KcBeYPX3keUQqHPh"@,
        LegacyVoice::Drew => "29vD33N1CtxCmqQRPOHJ"@,
        LegacyVoice::Domi => "AZnzlk1XvdvUeBnXmlld"@,
        LegacyVoice::Eli => "MF3mGyEYCl7XYWbV9V6O"@,
        LegacyVoice::Emily => "LcfcDJNUP1GQjkzn1xUU"@,
        LegacyVoice::Ethan => "g5CIjZEefAph4nQFvHAz"@,
        LegacyVoice::Fin => "D38z5RcWu1voky8WS1ja"@,
        LegacyVoice::Freya => "jsCqWAovK2LkecY7zXl4"@,
        LegacyVoice::Gigi => "jBpfuIE2acCO8z3wKNLl"@,
        LegacyVoice::Giovanni => "zcAOhNBS3c14rBihAFp1"@,
        LegacyVoice::Glinda => "z9fAnlkpzviPz146aGWa"@,
        LegacyVoice::Grace => "oWAxZDx7w5VEj9dCyTzz"@,
        LegacyVoice::Harry => "SOYHLrjzK2X1ezoPC6cr"@,
        LegacyVoice::James => "ZQe5CZNOzWyzPSCn5a3c"@,
        LegacyVoice::Jessie => "t0jbNlBVZ17f02VDIeMI"@,
        LegacyVoice::Jeremy => "bVMeCyTHy58xNoL34h3p"@,
        LegacyVoice::Joseph => "Zlb1dXrM653N07WRdFW3"@,
        LegacyVoice::Josh => "TxGEqnHWrfWFTfGW9XjX"@,
        LegacyVoice::Michael => "flq6f7yk4E4fJM5XTYuZ"@,
        LegacyVoice::Mimi => "zrHiDhphv9ZnVXBqCLjz"@,
        LegacyVoice::Nicole => "piTKgcLEGmPE4e6mEKli"@,
        LegacyVoice::Patrick => "ODq5zmih8GrVes37Dizd"@,
        LegacyVoice::Paul => "5Q0t7uMcjvnagumLfvZi"@,
        LegacyVoice::Rachel => "21m00Tcm4TlvDq8ikWAM"@,
        LegacyVoice::Sam => "yoZ06aMxZJJ28mfd3POQ"@,
        LegacyVoice::Serena => "pMsXgVXv3BLzUgSXRplE"@,
        LegacyVoice::Thomas => "GBv7mTt0atIp3Br8iCZE"@,
    }
}

/// The voice id of each legacy voice.
pub proof fn lemma_legacy_voice_id_table()
    ensures
        legacy_voice_id(LegacyVoice::Adam) == "pNInz6obpgDQGcFmaJgB"@,
        legacy_voice_id(LegacyVoice::Antoni) == "ErXwobaYiN019PkySvjV"@,
        legacy_voice_id(LegacyVoice::Arnold) == "VR6AewLTigWG4xSOukaG"@,
        legacy_voice_id(LegacyVoice::Clyde) == "2EiwWnXFnvU5JabPnv8n"@,
        legacy_voice_id(LegacyVoice::Dave) == "CYw3kZ02Hs0563khs1Fj"@,
        legacy_voice_id(LegacyVoice::Dorothy) == "ThT5KcBeYPX3keUQqHPh"@,
        legacy_voice_id(LegacyVoice::Drew) == "29vD33N1CtxCmqQRPOHJ"@,
        legacy_voice_id(LegacyVoice::Domi) == "AZnzlk1XvdvUeBnXmlld"@,
        legacy_voice_id(LegacyVoice::Eli) == "MF3mGyEYCl7XYWbV9V6O"@,
        legacy_voice_id(LegacyVoice::Emily) == "LcfcDJNUP1GQjkzn1xUU"@,
        legacy_voice_id(LegacyVoice::Ethan) == "g5CIjZEefAph4nQFvHAz"@,
        legacy_voice_id(LegacyVoice::Fin) == "D38z5RcWu1voky8WS1ja"@,
        legacy_voice_id(LegacyVoice::Freya) == "jsCqWAovK2LkecY7zXl4"@,
        legacy_voice_id(LegacyVoice::Gigi) == "jBpfuIE2acCO8z3wKNLl"@,
        legacy_voice_id(LegacyVoice::Giovanni) == "zcAOhNBS3c14rBihAFp1"@,
        legacy_voice_id(LegacyVoice::Glinda) == "z9fAnlkpzviPz146aGWa"@,
        legacy_voice_id(LegacyVoice::Grace) == "oWAxZDx7w5VEj9dCyTzz"@,
        legacy_voice_id(LegacyVoice::Harry) == "SOYHLrjzK2X1ezoPC6cr"@,
        legacy_voice_id(LegacyVoice::James) == "ZQe5CZNOzWyzPSCn5a3c"@,
        legacy_voice_id(LegacyVoice::Jessie) == "t0jbNlBVZ17f02VDIeMI"@,
        legacy_voice_id(LegacyVoice::Jeremy) == "bVMeCyTHy58xNoL34h3p"@,
        legacy_voice_id(LegacyVoice::Joseph) == "Zlb1dXrM653N07WRdFW3"@,
        legacy_voice_id(LegacyVoice::Josh) == "TxGEqnHWrfWFTfGW9XjX"@,
        legacy_voice_id(LegacyVoice::Michael) == "flq6f7yk4E4fJM5XTYuZ"@,
        legacy_voice_id(LegacyVoice::Mimi) == "zrHiDhphv9ZnVXBqCLjz"@,
        legacy_voice_id(LegacyVoice::Nicole) == "piTKgcLEGmPE4e6mEKli"@,
        legacy_voice_id(LegacyVoice::Patrick) == "ODq5zmih8GrVes37Dizd"@,
        legacy_voice_id(LegacyVoice::Paul) == "5Q0t7uMcjvnagumLfvZi"@,
        legacy_voice_id(LegacyVoice::Rachel) == "21m00Tcm4TlvDq8ikWAM"@,
        legacy_voice_id(LegacyVoice::Sam) == "yoZ06aMxZJJ28mfd3POQ"@,
        legacy_voice_id(LegacyVoice::Serena) == "pMsXgVXv3BLzUgSXRplE"@,
        legacy_voice_id(LegacyVoice::Thomas) == "GBv7mTt0atIp3Br8iCZE"@,
{
}

impl LegacyVoice {
    /// The voice identifier
    pub fn as_str(self) -> (s: &'static str)
        ensures
            s@ == legacy_voice_id(self),
    {
        match self {
            LegacyVoice::Adam => "pNInz6obpgDQGcFmaJgB",
            LegacyVoice::Antoni => "ErXwobaYiN019PkySvjV",
            LegacyVoice::Arnold => "VR6AewLTigWG4xSOukaG",
            LegacyVoice::Clyde => "2EiwWnXFnvU5JabPnv8n",
            LegacyVoice::Dave => "CYw3kZ02Hs0563khs1Fj",
            LegacyVoice::Dorothy => "ThT5KcBeYPX3keUQqHPh",
            LegacyVoice::Drew => "29vD33N1CtxCmqQRPOHJ",
            LegacyVoice::Domi => "AZnzlk1XvdvUeBnXmlld",
            LegacyVoice::Eli => "MF3mGyEYCl7XYWbV9V6O",
            LegacyVoice::Emily => "LcfcDJNUP1GQjkzn1xUU",
            LegacyVoice::Ethan => "g5CIjZEefAph4nQFvHAz",
            LegacyVoice::Fin => "D38z5RcWu1voky8WS1ja",
            LegacyVoice::Freya => "jsCqWAovK2LkecY7zXl4",
            LegacyVoice::Gigi => "jBpfuIE2acCO8z3wKNLl",
            LegacyVoice::Giovanni => "zcAOhNBS3c14rBihAFp1",
            LegacyVoice::Glinda => "z9fAnlkpzviPz146aGWa",
            LegacyVoice::Grace => "oWAxZDx7w5VEj9dCyTzz",
            LegacyVoice::Harry => "SOYHLrjzK2X1ezoPC6cr",
            LegacyVoice::James => "ZQe5CZNOzWyzPSCn5a3c",
            LegacyVoice::Jessie => "t0jbNlBVZ17f02VDIeMI",
            LegacyVoice::Jeremy => "bVMeCyTHy58xNoL34h3p",
            LegacyVoice::Joseph => "Zlb1dXrM653N07WRdFW3",
            LegacyVoice::Josh => "TxGEqnHWrfWFTfGW9XjX",
            LegacyVoice::Michael => "flq6f7yk4E4fJM5XTYuZ",
            LegacyVoice::Mimi => "zrHiDhphv9ZnVXBqCLjz",
            LegacyVoice::Nicole => "piTKgcLEGmPE4e6mEKli",
            LegacyVoice::Patrick => "ODq5zmih8GrVes37Dizd",
            LegacyVoice::Paul => "5Q0t7uMcjvnagumLfvZi",
            LegacyVoice::Rachel => "21m00Tcm4TlvDq8ikWAM",
            LegacyVoice::Sam => "yoZ06aMxZJJ28mfd3POQ",
            LegacyVoice::Serena => "pMsXgVXv3BLzUgSXRplE",
            LegacyVoice::Thomas => "GBv7mTt0atIp3Br8iCZE",
        }
    }

    /// The voice identifier, owned.
    pub fn to_string(self) -> (s: String)
        ensures
            s@ == legacy_voice_id(self),
    {
        owned(self.as_str())
    }

    /// The identifier of this legacyvoice.
    pub fn to_id(self) -> (r: VoiceID)
        ensures
            r._inner@ == legacy_voice_id(self),
    {
        VoiceID { _inner: self.to_string() }
    }
}

} // verus!
