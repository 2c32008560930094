use vstd::prelude::*;

verus! {

/// The symbolic name of an event. Every name but `FLP_Unknown` belongs to
/// exactly one identifier; `FLP_Unknown` also stands for every identifier
/// that has no name of its own.
#[derive(Debug, Clone, Copy, PartialEq, Eq, Structural)]
pub enum FLP_Event {
    FLP_ChanEnabled,
    FLP_NoteOn,
    FLP_ChanVol,
    FLP_ChanPan,
    FLP_MIDIChan,
    FLP_MIDINote,
    FLP_MIDIPatch,
    FLP_MIDIBank,
    FLP_LoopActive,
    FLP_ShowInfo,
    FLP_Shuffle,
    FLP_MainVol,
    FLP_FitToSteps,
    FLP_Pitchable,
    FLP_Zipped,
    FLP_Delay_Flags,
    FLP_TimeSig_Num,
    FLP_TimeSig_Beat,
    FLP_UseLoopPoints,
    FLP_LoopType,
    FLP_ChanType,
    FLP_TargetFXTrack,
    FLP_PanVolTab,
    FLP_nStepsShown,
    FLP_SSLength,
    FLP_SSLoop,
    FLP_FXProps,
    FLP_Registered,
    FLP_APDC,
    FLP_TruncateClipNotes,
    FLP_EEAutoMode,
    FLP_NewChan,
    FLP_NewPat,
    FLP_Tempo,
    FLP_CurrentPatNum,
    FLP_PatData,
    FLP_FX,
    FLP_FXFlags,
    FLP_FXCut,
    FLP_DotVol,
    FLP_DotPan,
    FLP_FXPreamp,
    FLP_FXDecay,
    FLP_FXAttack,
    FLP_DotNote,
    FLP_DotPitch,
    FLP_DotMix,
    FLP_MainPitch,
    FLP_RandChan,
    FLP_MixChan,
    FLP_FXRes,
    FLP_OldSongLoopPos,
    FLP_FXStDel,
    FLP_FX3,
    FLP_DotFRes,
    FLP_DotFCut,
    FLP_ShiftTime,
    FLP_LoopEndBar,
    FLP_Dot,
    FLP_DotShift,
    FLP_Tempo_Fine,
    FLP_LayerChan,
    FLP_FXIcon,
    FLP_DotRel,
    FLP_SwingMix,
    FLP_PluginColor,
    FLP_PLItem,
    FLP_Echo,
    FLP_FXSine,
    FLP_CutCutBy,
    FLP_WindowH,
    FLP_MiddleNote,
    FLP_Reserved,
    FLP_MainResCut,
    FLP_DelayFRes,
    FLP_Reverb,
    FLP_StretchTime,
    FLP_SSNote,
    FLP_FineTune,
    FLP_SampleFlags,
    FLP_LayerFlags,
    FLP_ChanFilterNum,
    FLP_CurrentFilterNum,
    FLP_FXOutChanNum,
    FLP_NewTimeMarker,
    FLP_FXColor,
    FLP_PatColor,
    FLP_PatAutoMode,
    FLP_SongLoopPos,
    FLP_AUSmpRate,
    FLP_FXInChanNum,
    FLP_PluginIcon,
    FLP_FineTempo,
    FLP_Text,
    FLP_Text_PatName,
    FLP_Text_Title,
    FLP_Text_Comment,
    FLP_Text_SampleFileName,
    FLP_Text_URL,
    FLP_Text_CommentRTF,
    FLP_Version,
    FLP_RegName,
    FLP_Text_DefPluginName,
    FLP_Text_ProjDataPath,
    FLP_Text_PluginName,
    FLP_Text_FXName,
    FLP_Text_TimeMarker,
    FLP_Text_Genre,
    FLP_Text_Author,
    FLP_MIDICtrls,
    FLP_Delay,
    FLP_TS404Params,
    FLP_DelayLine,
    FLP_NewPlugin,
    FLP_PluginParams,
    FLP_Reserved2,
    FLP_ChanParams,
    FLP_CtrlRecChan,
    FLP_PLSel,
    FLP_Envelope,
    FLP_ChanLevels,
    FLP_ChanFilter,
    FLP_ChanPoly,
    FLP_NoteRecChan,
    FLP_PatCtrlRecChan,
    FLP_PatNoteRecChan,
    FLP_InitCtrlRecChan,
    FLP_RemoteCtrl_MIDI,
    FLP_RemoteCtrl_Int,
    FLP_Tracking,
    FLP_ChanOfsLevels,
    FLP_Text_RemoteCtrlFormula,
    FLP_Text_ChanFilter,
    FLP_RegBlackList,
    FLP_PLRecChan,
    FLP_ChanAC,
    FLP_FXRouting,
    FLP_FXParams,
    FLP_ProjectTime,
    FLP_PLTrackInfo,
    FLP_Text_PLTrackName,
    FLP_Unknown,
}

impl FLP_Event {
    /// The identifier that carries this name in the byte stream.
    pub open spec fn spec_code(self) -> u8 {
        match self {
            FLP_Event::FLP_ChanEnabled => 0u8,
            FLP_Event::FLP_NoteOn => 1u8,
            FLP_Event::FLP_ChanVol => 2u8,
            FLP_Event::FLP_ChanPan => 3u8,
            FLP_Event::FLP_MIDIChan => 4u8,
            FLP_Event::FLP_MIDINote => 5u8,
            FLP_Event::FLP_MIDIPatch => 6u8,
            FLP_Event::FLP_MIDIBank => 7u8,
            FLP_Event::FLP_LoopActive => 9u8,
            FLP_Event::FLP_ShowInfo => 10u8,
            FLP_Event::FLP_Shuffle => 11u8,
            FLP_Event::FLP_MainVol => 12u8,
            FLP_Event::FLP_FitToSteps => 13u8,
            FLP_Event::FLP_Pitchable => 14u8,
            FLP_Event::FLP_Zipped => 15u8,
            FLP_Event::FLP_Delay_Flags => 16u8,
            FLP_Event::FLP_TimeSig_Num => 17u8,
            FLP_Event::FLP_TimeSig_Beat => 18u8,
            FLP_Event::FLP_UseLoopPoints => 19u8,
            FLP_Event::FLP_LoopType => 20u8,
            FLP_Event::FLP_ChanType => 21u8,
            FLP_Event::FLP_TargetFXTrack => 22u8,
            FLP_Event::FLP_PanVolTab => 23u8,
            FLP_Event::FLP_nStepsShown => 24u8,
            FLP_Event::FLP_SSLength => 25u8,
            FLP_Event::FLP_SSLoop => 26u8,
            FLP_Event::FLP_FXProps => 27u8,
            FLP_Event::FLP_Registered => 28u8,
            FLP_Event::FLP_APDC => 29u8,
            FLP_Event::FLP_TruncateClipNotes => 30u8,
            FLP_Event::FLP_EEAutoMode => 31u8,
            FLP_Event::FLP_NewChan => 64u8,
            FLP_Event::FLP_NewPat => 65u8,
            FLP_Event::FLP_Tempo => 66u8,
            FLP_Event::FLP_CurrentPatNum => 67u8,
            FLP_Event::FLP_PatData => 68u8,
            FLP_Event::FLP_FX => 69u8,
            FLP_Event::FLP_FXFlags => 70u8,
            FLP_Event::FLP_FXCut => 71u8,
            FLP_Event::FLP_DotVol => 72u8,
            FLP_Event::FLP_DotPan => 73u8,
            FLP_Event::FLP_FXPreamp => 74u8,
            FLP_Event::FLP_FXDecay => 75u8,
            FLP_Event::FLP_FXAttack => 76u8,
            FLP_Event::FLP_DotNote => 77u8,
            FLP_Event::FLP_DotPitch => 78u8,
            FLP_Event::FLP_DotMix => 79u8,
            FLP_Event::FLP_MainPitch => 80u8,
            FLP_Event::FLP_RandChan => 81u8,
            FLP_Event::FLP_MixChan => 82u8,
            FLP_Event::FLP_FXRes => 83u8,
            FLP_Event::FLP_OldSongLoopPos => 84u8,
            FLP_Event::FLP_FXStDel => 85u8,
            FLP_Event::FLP_FX3 => 86u8,
            FLP_Event::FLP_DotFRes => 87u8,
            FLP_Event::FLP_DotFCut => 88u8,
            FLP_Event::FLP_ShiftTime => 89u8,
            FLP_Event::FLP_LoopEndBar => 90u8,
            FLP_Event::FLP_Dot => 91u8,
            FLP_Event::FLP_DotShift => 92u8,
            FLP_Event::FLP_Tempo_Fine => 93u8,
            FLP_Event::FLP_LayerChan => 94u8,
            FLP_Event::FLP_FXIcon => 95u8,
            FLP_Event::FLP_DotRel => 96u8,
            FLP_Event::FLP_SwingMix => 97u8,
            FLP_Event::FLP_PluginColor => 128u8,
            FLP_Event::FLP_PLItem => 129u8,
            FLP_Event::FLP_Echo => 130u8,
            FLP_Event::FLP_FXSine => 131u8,
            FLP_Event::FLP_CutCutBy => 132u8,
            FLP_Event::FLP_WindowH => 133u8,
            FLP_Event::FLP_MiddleNote => 135u8,
            FLP_Event::FLP_Reserved => 136u8,
            FLP_Event::FLP_MainResCut => 137u8,
            FLP_Event::FLP_DelayFRes => 138u8,
            FLP_Event::FLP_Reverb => 139u8,
            FLP_Event::FLP_StretchTime => 140u8,
            FLP_Event::FLP_SSNote => 141u8,
            FLP_Event::FLP_FineTune => 142u8,
            FLP_Event::FLP_SampleFlags => 143u8,
            FLP_Event::FLP_LayerFlags => 144u8,
            FLP_Event::FLP_ChanFilterNum => 145u8,
            FLP_Event::FLP_CurrentFilterNum => 146u8,
            FLP_Event::FLP_FXOutChanNum => 147u8,
            FLP_Event::FLP_NewTimeMarker => 148u8,
            FLP_Event::FLP_FXColor => 149u8,
            FLP_Event::FLP_PatColor => 150u8,
            FLP_Event::FLP_PatAutoMode => 151u8,
            FLP_Event::FLP_SongLoopPos => 152u8,
            FLP_Event::FLP_AUSmpRate => 153u8,
            FLP_Event::FLP_FXInChanNum => 154u8,
            FLP_Event::FLP_PluginIcon => 155u8,
            FLP_Event::FLP_FineTempo => 156u8,
            FLP_Event::FLP_Text => 192u8,
            FLP_Event::FLP_Text_PatName => 193u8,
            FLP_Event::FLP_Text_Title => 194u8,
            FLP_Event::FLP_Text_Comment => 195u8,
            FLP_Event::FLP_Text_SampleFileName => 196u8,
            FLP_Event::FLP_Text_URL => 197u8,
            FLP_Event::FLP_Text_CommentRTF => 198u8,
            FLP_Event::FLP_Version => 199u8,
            FLP_Event::FLP_RegName => 200u8,
            FLP_Event::FLP_Text_DefPluginName => 201u8,
            FLP_Event::FLP_Text_ProjDataPath => 202u8,
            FLP_Event::FLP_Text_PluginName => 203u8,
            FLP_Event::FLP_Text_FXName => 204u8,
            FLP_Event::FLP_Text_TimeMarker => 205u8,
            FLP_Event::FLP_Text_Genre => 206u8,
            FLP_Event::FLP_Text_Author => 207u8,
            FLP_Event::FLP_MIDICtrls => 208u8,
            FLP_Event::FLP_Delay => 209u8,
            FLP_Event::FLP_TS404Params => 210u8,
            FLP_Event::FLP_DelayLine => 211u8,
            FLP_Event::FLP_NewPlugin => 212u8,
            FLP_Event::FLP_PluginParams => 213u8,
            FLP_Event::FLP_Reserved2 => 214u8,
            FLP_Event::FLP_ChanParams => 215u8,
            FLP_Event::FLP_CtrlRecChan => 216u8,
            FLP_Event::FLP_PLSel => 217u8,
            FLP_Event::FLP_Envelope => 218u8,
            FLP_Event::FLP_ChanLevels => 219u8,
            FLP_Event::FLP_ChanFilter => 220u8,
            FLP_Event::FLP_ChanPoly => 221u8,
            FLP_Event::FLP_NoteRecChan => 222u8,
            FLP_Event::FLP_PatCtrlRecChan => 223u8,
            FLP_Event::FLP_PatNoteRecChan => 224u8,
            FLP_Event::FLP_InitCtrlRecChan => 225u8,
            FLP_Event::FLP_RemoteCtrl_MIDI => 226u8,
            FLP_Event::FLP_RemoteCtrl_Int => 227u8,
            FLP_Event::FLP_Tracking => 228u8,
            FLP_Event::FLP_ChanOfsLevels => 229u8,
            FLP_Event::FLP_Text_RemoteCtrlFormula => 230u8,
            FLP_Event::FLP_Text_ChanFilter => 231u8,
            FLP_Event::FLP_RegBlackList => 232u8,
            FLP_Event::FLP_PLRecChan => 233u8,
            FLP_Event::FLP_ChanAC => 234u8,
            FLP_Event::FLP_FXRouting => 235u8,
            FLP_Event::FLP_FXParams => 236u8,
            FLP_Event::FLP_ProjectTime => 237u8,
            FLP_Event::FLP_PLTrackInfo => 238u8,
            FLP_Event::FLP_Text_PLTrackName => 239u8,
            FLP_Event::FLP_Unknown => 240u8,
        }
    }

    /// The identifier that carries this name in the byte stream.
    pub fn code(self) -> (r: u8)
        ensures
            r == self.spec_code(),
    {
        match self {
            FLP_Event::FLP_ChanEnabled => 0u8,
            FLP_Event::FLP_NoteOn => 1u8,
            FLP_Event::FLP_ChanVol => 2u8,
            FLP_Event::FLP_ChanPan => 3u8,
            FLP_Event::FLP_MIDIChan => 4u8,
            FLP_Event::FLP_MIDINote => 5u8,
            FLP_Event::FLP_MIDIPatch => 6u8,
            FLP_Event::FLP_MIDIBank => 7u8,
            FLP_Event::FLP_LoopActive => 9u8,
            FLP_Event::FLP_ShowInfo => 10u8,
            FLP_Event::FLP_Shuffle => 11u8,
            FLP_Event::FLP_MainVol => 12u8,
            FLP_Event::FLP_FitToSteps => 13u8,
            FLP_Event::FLP_Pitchable => 14u8,
            FLP_Event::FLP_Zipped => 15u8,
            FLP_Event::FLP_Delay_Flags => 16u8,
            FLP_Event::FLP_TimeSig_Num => 17u8,
            FLP_Event::FLP_TimeSig_Beat => 18u8,
            FLP_Event::FLP_UseLoopPoints => 19u8,
            FLP_Event::FLP_LoopType => 20u8,
            FLP_Event::FLP_ChanType => 21u8,
            FLP_Event::FLP_TargetFXTrack => 22u8,
            FLP_Event::FLP_PanVolTab => 23u8,
            FLP_Event::FLP_nStepsShown => 24u8,
            FLP_Event::FLP_SSLength => 25u8,
            FLP_Event::FLP_SSLoop => 26u8,
            FLP_Event::FLP_FXProps => 27u8,
            FLP_Event::FLP_Registered => 28u8,
            FLP_Event::FLP_APDC => 29u8,
            FLP_Event::FLP_TruncateClipNotes => 30u8,
            FLP_Event::FLP_EEAutoMode => 31u8,
            FLP_Event::FLP_NewChan => 64u8,
            FLP_Event::FLP_NewPat => 65u8,
            FLP_Event::FLP_Tempo => 66u8,
            FLP_Event::FLP_CurrentPatNum => 67u8,
            FLP_Event::FLP_PatData => 68u8,
            FLP_Event::FLP_FX => 69u8,
            FLP_Event::FLP_FXFlags => 70u8,
            FLP_Event::FLP_FXCut => 71u8,
            FLP_Event::FLP_DotVol => 72u8,
            FLP_Event::FLP_DotPan => 73u8,
            FLP_Event::FLP_FXPreamp => 74u8,
            FLP_Event::FLP_FXDecay => 75u8,
            FLP_Event::FLP_FXAttack => 76u8,
            FLP_Event::FLP_DotNote => 77u8,
            FLP_Event::FLP_DotPitch => 78u8,
            FLP_Event::FLP_DotMix => 79u8,
            FLP_Event::FLP_MainPitch => 80u8,
            FLP_Event::FLP_RandChan => 81u8,
            FLP_Event::FLP_MixChan => 82u8,
            FLP_Event::FLP_FXRes => 83u8,
            FLP_Event::FLP_OldSongLoopPos => 84u8,
            FLP_Event::FLP_FXStDel => 85u8,
            FLP_Event::FLP_FX3 => 86u8,
            FLP_Event::FLP_DotFRes => 87u8,
            FLP_Event::FLP_DotFCut => 88u8,
            FLP_Event::FLP_ShiftTime => 89u8,
            FLP_Event::FLP_LoopEndBar => 90u8,
            FLP_Event::FLP_Dot => 91u8,
            FLP_Event::FLP_DotShift => 92u8,
            FLP_Event::FLP_Tempo_Fine => 93u8,
            FLP_Event::FLP_LayerChan => 94u8,
            FLP_Event::FLP_FXIcon => 95u8,
            FLP_Event::FLP_DotRel => 96u8,
            FLP_Event::FLP_SwingMix => 97u8,
            FLP_Event::FLP_PluginColor => 128u8,
            FLP_Event::FLP_PLItem => 129u8,
            FLP_Event::FLP_Echo => 130u8,
            FLP_Event::FLP_FXSine => 131u8,
            FLP_Event::FLP_CutCutBy => 132u8,
            FLP_Event::FLP_WindowH => 133u8,
            FLP_Event::FLP_MiddleNote => 135u8,
            FLP_Event::FLP_Reserved => 136u8,
            FLP_Event::FLP_MainResCut => 137u8,
            FLP_Event::FLP_DelayFRes => 138u8,
            FLP_Event::FLP_Reverb => 139u8,
            FLP_Event::FLP_StretchTime => 140u8,
            FLP_Event::FLP_SSNote => 141u8,
            FLP_Event::FLP_FineTune => 142u8,
            FLP_Event::FLP_SampleFlags => 143u8,
            FLP_Event::FLP_LayerFlags => 144u8,
            FLP_Event::FLP_ChanFilterNum => 145u8,
            FLP_Event::FLP_CurrentFilterNum => 146u8,
            FLP_Event::FLP_FXOutChanNum => 147u8,
            FLP_Event::FLP_NewTimeMarker => 148u8,
            FLP_Event::FLP_FXColor => 149u8,
            FLP_Event::FLP_PatColor => 150u8,
            FLP_Event::FLP_PatAutoMode => 151u8,
            FLP_Event::FLP_SongLoopPos => 152u8,
            FLP_Event::FLP_AUSmpRate => 153u8,
            FLP_Event::FLP_FXInChanNum => 154u8,
            FLP_Event::FLP_PluginIcon => 155u8,
            FLP_Event::FLP_FineTempo => 156u8,
            FLP_Event::FLP_Text => 192u8,
            FLP_Event::FLP_Text_PatName => 193u8,
            FLP_Event::FLP_Text_Title => 194u8,
            FLP_Event::FLP_Text_Comment => 195u8,
            FLP_Event::FLP_Text_SampleFileName => 196u8,
            FLP_Event::FLP_Text_URL => 197u8,
            FLP_Event::FLP_Text_CommentRTF => 198u8,
            FLP_Event::FLP_Version => 199u8,
            FLP_Event::FLP_RegName => 200u8,
            FLP_Event::FLP_Text_DefPluginName => 201u8,
            FLP_Event::FLP_Text_ProjDataPath => 202u8,
            FLP_Event::FLP_Text_PluginName => 203u8,
            FLP_Event::FLP_Text_FXName => 204u8,
            FLP_Event::FLP_Text_TimeMarker => 205u8,
            FLP_Event::FLP_Text_Genre => 206u8,
            FLP_Event::FLP_Text_Author => 207u8,
            FLP_Event::FLP_MIDICtrls => 208u8,
            FLP_Event::FLP_Delay => 209u8,
            FLP_Event::FLP_TS404Params => 210u8,
            FLP_Event::FLP_DelayLine => 211u8,
            FLP_Event::FLP_NewPlugin => 212u8,
            FLP_Event::FLP_PluginParams => 213u8,
            FLP_Event::FLP_Reserved2 => 214u8,
            FLP_Event::FLP_ChanParams => 215u8,
            FLP_Event::FLP_CtrlRecChan => 216u8,
            FLP_Event::FLP_PLSel => 217u8,
            FLP_Event::FLP_Envelope => 218u8,
            FLP_Event::FLP_ChanLevels => 219u8,
            FLP_Event::FLP_ChanFilter => 220u8,
            FLP_Event::FLP_ChanPoly => 221u8,
            FLP_Event::FLP_NoteRecChan => 222u8,
            FLP_Event::FLP_PatCtrlRecChan => 223u8,
            FLP_Event::FLP_PatNoteRecChan => 224u8,
            FLP_Event::FLP_InitCtrlRecChan => 225u8,
            FLP_Event::FLP_RemoteCtrl_MIDI => 226u8,
            FLP_Event::FLP_RemoteCtrl_Int => 227u8,
            FLP_Event::FLP_Tracking => 228u8,
            FLP_Event::FLP_ChanOfsLevels => 229u8,
            FLP_Event::FLP_Text_RemoteCtrlFormula => 230u8,
            FLP_Event::FLP_Text_ChanFilter => 231u8,
            FLP_Event::FLP_RegBlackList => 232u8,
            FLP_Event::FLP_PLRecChan => 233u8,
            FLP_Event::FLP_ChanAC => 234u8,
            FLP_Event::FLP_FXRouting => 235u8,
            FLP_Event::FLP_FXParams => 236u8,
            FLP_Event::FLP_ProjectTime => 237u8,
            FLP_Event::FLP_PLTrackInfo => 238u8,
            FLP_Event::FLP_Text_PLTrackName => 239u8,
            FLP_Event::FLP_Unknown => 240u8,
        }
    }

    /// The name of identifier `id`: the one name whose code is `id`, and
    /// `FLP_Unknown` where there is none. This never fails.
    pub open spec fn spec_resolve(id: u8) -> FLP_Event {
        if exists|e: FLP_Event| e.spec_code() == id {
            choose|e: FLP_Event| e.spec_code() == id
        } else {
            FLP_Event::FLP_Unknown
        }
    }

    /// Resolves an identifier to its name, falling back to `FLP_Unknown`.
    pub fn resolve(id: u8) -> (r: FLP_Event)
        ensures
            r == FLP_Event::spec_resolve(id),
            (exists|e: FLP_Event| e.spec_code() == id) ==> r.spec_code() == id,
            (forall|e: FLP_Event| e.spec_code() != id) ==> r == FLP_Event::FLP_Unknown,
    {
        let r = match id {
            0u8 => FLP_Event::FLP_ChanEnabled,
            1u8 => FLP_Event::FLP_NoteOn,
            2u8 => FLP_Event::FLP_ChanVol,
            3u8 => FLP_Event::FLP_ChanPan,
            4u8 => FLP_Event::FLP_MIDIChan,
            5u8 => FLP_Event::FLP_MIDINote,
            6u8 => FLP_Event::FLP_MIDIPatch,
            7u8 => FLP_Event::FLP_MIDIBank,
            9u8 => FLP_Event::FLP_LoopActive,
            10u8 => FLP_Event::FLP_ShowInfo,
            11u8 => FLP_Event::FLP_Shuffle,
            12u8 => FLP_Event::FLP_MainVol,
            13u8 => FLP_Event::FLP_FitToSteps,
            14u8 => FLP_Event::FLP_Pitchable,
            15u8 => FLP_Event::FLP_Zipped,
            16u8 => FLP_Event::FLP_Delay_Flags,
            17u8 => FLP_Event::FLP_TimeSig_Num,
            18u8 => FLP_Event::FLP_TimeSig_Beat,
            19u8 => FLP_Event::FLP_UseLoopPoints,
            20u8 => FLP_Event::FLP_LoopType,
            21u8 => FLP_Event::FLP_ChanType,
            22u8 => FLP_Event::FLP_TargetFXTrack,
            23u8 => FLP_Event::FLP_PanVolTab,
            24u8 => FLP_Event::FLP_nStepsShown,
            25u8 => FLP_Event::FLP_SSLength,
            26u8 => FLP_Event::FLP_SSLoop,
            27u8 => FLP_Event::FLP_FXProps,
            28u8 => FLP_Event::FLP_Registered,
            29u8 => FLP_Event::FLP_APDC,
            30u8 => FLP_Event::FLP_TruncateClipNotes,
            31u8 => FLP_Event::FLP_EEAutoMode,
            64u8 => FLP_Event::FLP_NewChan,
            65u8 => FLP_Event::FLP_NewPat,
            66u8 => FLP_Event::FLP_Tempo,
            67u8 => FLP_Event::FLP_CurrentPatNum,
            68u8 => FLP_Event::FLP_PatData,
            69u8 => FLP_Event::FLP_FX,
            70u8 => FLP_Event::FLP_FXFlags,
            71u8 => FLP_Event::FLP_FXCut,
            72u8 => FLP_Event::FLP_DotVol,
            73u8 => FLP_Event::FLP_DotPan,
            74u8 => FLP_Event::FLP_FXPreamp,
            75u8 => FLP_Event::FLP_FXDecay,
            76u8 => FLP_Event::FLP_FXAttack,
            77u8 => FLP_Event::FLP_DotNote,
            78u8 => FLP_Event::FLP_DotPitch,
            79u8 => FLP_Event::FLP_DotMix,
            80u8 => FLP_Event::FLP_MainPitch,
            81u8 => FLP_Event::FLP_RandChan,
            82u8 => FLP_Event::FLP_MixChan,
            83u8 => FLP_Event::FLP_FXRes,
            84u8 => FLP_Event::FLP_OldSongLoopPos,
            85u8 => FLP_Event::FLP_FXStDel,
            86u8 => FLP_Event::FLP_FX3,
            87u8 => FLP_Event::FLP_DotFRes,
            88u8 => FLP_Event::FLP_DotFCut,
            89u8 => FLP_Event::FLP_ShiftTime,
            90u8 => FLP_Event::FLP_LoopEndBar,
            91u8 => FLP_Event::FLP_Dot,
            92u8 => FLP_Event::FLP_DotShift,
            93u8 => FLP_Event::FLP_Tempo_Fine,
            94u8 => FLP_Event::FLP_LayerChan,
            95u8 => FLP_Event::FLP_FXIcon,
            96u8 => FLP_Event::FLP_DotRel,
            97u8 => FLP_Event::FLP_SwingMix,
            128u8 => FLP_Event::FLP_PluginColor,
            129u8 => FLP_Event::FLP_PLItem,
            130u8 => FLP_Event::FLP_Echo,
            131u8 => FLP_Event::FLP_FXSine,
            132u8 => FLP_Event::FLP_CutCutBy,
            133u8 => FLP_Event::FLP_WindowH,
            135u8 => FLP_Event::FLP_MiddleNote,
            136u8 => FLP_Event::FLP_Reserved,
            137u8 => FLP_Event::FLP_MainResCut,
            138u8 => FLP_Event::FLP_DelayFRes,
            139u8 => FLP_Event::FLP_Reverb,
            140u8 => FLP_Event::FLP_StretchTime,
            141u8 => FLP_Event::FLP_SSNote,
            142u8 => FLP_Event::FLP_FineTune,
            143u8 => FLP_Event::FLP_SampleFlags,
            144u8 => FLP_Event::FLP_LayerFlags,
            145u8 => FLP_Event::FLP_ChanFilterNum,
            146u8 => FLP_Event::FLP_CurrentFilterNum,
            147u8 => FLP_Event::FLP_FXOutChanNum,
            148u8 => FLP_Event::FLP_NewTimeMarker,
            149u8 => FLP_Event::FLP_FXColor,
            150u8 => FLP_Event::FLP_PatColor,
            151u8 => FLP_Event::FLP_PatAutoMode,
            152u8 => FLP_Event::FLP_SongLoopPos,
            153u8 => FLP_Event::FLP_AUSmpRate,
            154u8 => FLP_Event::FLP_FXInChanNum,
            155u8 => FLP_Event::FLP_PluginIcon,
            156u8 => FLP_Event::FLP_FineTempo,
            192u8 => FLP_Event::FLP_Text,
            193u8 => FLP_Event::FLP_Text_PatName,
            194u8 => FLP_Event::FLP_Text_Title,
            195u8 => FLP_Event::FLP_Text_Comment,
            196u8 => FLP_Event::FLP_Text_SampleFileName,
            197u8 => FLP_Event::FLP_Text_URL,
            198u8 => FLP_Event::FLP_Text_CommentRTF,
            199u8 => FLP_Event::FLP_Version,
            200u8 => FLP_Event::FLP_RegName,
            201u8 => FLP_Event::FLP_Text_DefPluginName,
            202u8 => FLP_Event::FLP_Text_ProjDataPath,
            203u8 => FLP_Event::FLP_Text_PluginName,
            204u8 => FLP_Event::FLP_Text_FXName,
            205u8 => FLP_Event::FLP_Text_TimeMarker,
            206u8 => FLP_Event::FLP_Text_Genre,
            207u8 => FLP_Event::FLP_Text_Author,
            208u8 => FLP_Event::FLP_MIDICtrls,
            209u8 => FLP_Event::FLP_Delay,
            210u8 => FLP_Event::FLP_TS404Params,
            211u8 => FLP_Event::FLP_DelayLine,
            212u8 => FLP_Event::FLP_NewPlugin,
            213u8 => FLP_Event::FLP_PluginParams,
            214u8 => FLP_Event::FLP_Reserved2,
            215u8 => FLP_Event::FLP_ChanParams,
            216u8 => FLP_Event::FLP_CtrlRecChan,
            217u8 => FLP_Event::FLP_PLSel,
            218u8 => FLP_Event::FLP_Envelope,
            219u8 => FLP_Event::FLP_ChanLevels,
            220u8 => FLP_Event::FLP_ChanFilter,
            221u8 => FLP_Event::FLP_ChanPoly,
            222u8 => FLP_Event::FLP_NoteRecChan,
            223u8 => FLP_Event::FLP_PatCtrlRecChan,
            224u8 => FLP_Event::FLP_PatNoteRecChan,
            225u8 => FLP_Event::FLP_InitCtrlRecChan,
            226u8 => FLP_Event::FLP_RemoteCtrl_MIDI,
            227u8 => FLP_Event::FLP_RemoteCtrl_Int,
            228u8 => FLP_Event::FLP_Tracking,
            229u8 => FLP_Event::FLP_ChanOfsLevels,
            230u8 => FLP_Event::FLP_Text_RemoteCtrlFormula,
            231u8 => FLP_Event::FLP_Text_ChanFilter,
            232u8 => FLP_Event::FLP_RegBlackList,
            233u8 => FLP_Event::FLP_PLRecChan,
            234u8 => FLP_Event::FLP_ChanAC,
            235u8 => FLP_Event::FLP_FXRouting,
            236u8 => FLP_Event::FLP_FXParams,
            237u8 => FLP_Event::FLP_ProjectTime,
            238u8 => FLP_Event::FLP_PLTrackInfo,
            239u8 => FLP_Event::FLP_Text_PLTrackName,
            240u8 => FLP_Event::FLP_Unknown,
            _ => FLP_Event::FLP_Unknown,
        };
        proof {
            if r.spec_code() == id {
                lemma_code_injective(r, FLP_Event::spec_resolve(id));
            } else {
                assert(forall|e: FLP_Event| e.spec_code() != id);
            }
        }
        r
    }
}

/// No two names share an identifier.
pub proof fn lemma_code_injective(a: FLP_Event, b: FLP_Event)
    requires
        a.spec_code() == b.spec_code(),
    ensures
        a == b,
{
}

/// Every name resolves back from its own code.
pub proof fn lemma_resolve_inverse(e: FLP_Event)
    ensures
        FLP_Event::spec_resolve(e.spec_code()) == e,
{
    let r = FLP_Event::spec_resolve(e.spec_code());
    assert(r.spec_code() == e.spec_code());
    lemma_code_injective(r, e);
}

/// The kind of project or state that a file holds.
#[derive(Debug, Clone, Copy, PartialEq, Eq, Structural)]
pub enum Header_Format {
    FLP_Format_None,
    FLP_Format_Song,
    FLP_Format_Score,
    FLP_Format_Auto,
    FLP_Format_ChanState,
    FLP_Format_PlugState,
    FLP_Format_PlugState_Gen,
    FLP_Format_PlugState_FX,
    FLP_Format_MixerState,
    FLP_Format_Patcher,
}

impl Header_Format {
    /// The number that stands for this format.
    pub open spec fn spec_code(self) -> int {
        match self {
            Header_Format::FLP_Format_None => -1,
            Header_Format::FLP_Format_Song => 0,
            Header_Format::FLP_Format_Score => 16,
            Header_Format::FLP_Format_Auto => 24,
            Header_Format::FLP_Format_ChanState => 32,
            Header_Format::FLP_Format_PlugState => 48,
            Header_Format::FLP_Format_PlugState_Gen => 49,
            Header_Format::FLP_Format_PlugState_FX => 50,
            Header_Format::FLP_Format_MixerState => 64,
            Header_Format::FLP_Format_Patcher => 80,
        }
    }

    /// Whether some format has the number `code`.
    pub open spec fn known(code: int) -> bool {
        exists|f: Header_Format| f.spec_code() == code
    }

    /// The format with the number `code`, where `known(code)`.
    pub open spec fn spec_from_code(code: int) -> Header_Format {
        choose|f: Header_Format| f.spec_code() == code
    }

    /// The format with the number `code`, or `None` where no format has it.
    pub fn from_code(code: i32) -> (r: Option<Header_Format>)
        ensures
            Header_Format::known(code as int) ==> r == Some(
                Header_Format::spec_from_code(code as int),
            ) && r->Some_0.spec_code() == code,
            !Header_Format::known(code as int) ==> r is None,
    {
        let r = match code {
            -1i32 => Some(Header_Format::FLP_Format_None),
            0i32 => Some(Header_Format::FLP_Format_Song),
            16i32 => Some(Header_Format::FLP_Format_Score),
            24i32 => Some(Header_Format::FLP_Format_Auto),
            32i32 => Some(Header_Format::FLP_Format_ChanState),
            48i32 => Some(Header_Format::FLP_Format_PlugState),
            49i32 => Some(Header_Format::FLP_Format_PlugState_Gen),
            50i32 => Some(Header_Format::FLP_Format_PlugState_FX),
            64i32 => Some(Header_Format::FLP_Format_MixerState),
            80i32 => Some(Header_Format::FLP_Format_Patcher),
            _ => None,
        };
        proof {
            match r {
                Some(f) => {
                    assert(f.spec_code() == code);
                    lemma_format_injective(f, Header_Format::spec_from_code(code as int));
                },
                None => {
                    assert(forall|f: Header_Format| f.spec_code() != code);
                },
            }
        }
        r
    }
}

/// No two formats share a number.
pub proof fn lemma_format_injective(a: Header_Format, b: Header_Format)
    requires
        a.spec_code() == b.spec_code(),
    ensures
        a == b,
{
}

} // verus!
