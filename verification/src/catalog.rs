use vstd::prelude::*;
use crate::util::str_eq;

verus! {

pub open spec fn known_string_0(s: Seq<char>) -> bool {
    ||| s == "AlignSetting"@
    ||| s == "AnimationPlayState"@
    ||| s == "AnimationReplaceState"@
    ||| s == "AppendMode"@
    ||| s == "AttestationConveyancePreference"@
    ||| s == "AudioContextLatencyCategory"@
    ||| s == "AudioContextState"@
    ||| s == "AuthenticatorAttachment"@
    ||| s == "AuthenticatorTransport"@
    ||| s == "AutoKeyword"@
    ||| s == "AutomationRate"@
    ||| s == "BinaryType"@
    ||| s == "BiquadFilterType"@
    ||| s == "CanPlayTypeResult"@
    ||| s == "CanvasDirection"@
    ||| s == "CanvasFillRule"@
    ||| s == "CanvasFontKerning"@
    ||| s == "CanvasFontStretch"@
    ||| s == "CanvasFontVariantCaps"@
    ||| s == "CanvasLineCap"@
    ||| s == "CanvasLineJoin"@
    ||| s == "CanvasTextAlign"@
    ||| s == "CanvasTextBaseline"@
    ||| s == "CanvasTextRendering"@
    ||| s == "ChannelCountMode"@
    ||| s == "ChannelInterpretation"@
    ||| s == "ClientTypes"@
    ||| s == "ColorGamut"@
    ||| s == "ColorSpaceConversion"@
    ||| s == "CompositeOperation"@
    ||| s == "CompositeOperationOrAuto"@
    ||| s == "CredentialMediationRequirement"@
    ||| s == "DOMParserSupportedType"@
    ||| s == "DirectionSetting"@
    ||| s == "DisplayCaptureSurfaceType"@
    ||| s == "DistanceModelType"@
    ||| s == "DocumentReadyState"@
    ||| s == "DocumentVisibilityState"@
    ||| s == "EndOfStreamError"@
    ||| s == "EndingType"@
    ||| s == "FileSystemHandleKind"@
    ||| s == "FillMode"@
    ||| s == "FontFaceLoadStatus"@
    ||| s == "FontFaceSetLoadStatus"@
    ||| s == "FullscreenNavigationUI"@
    ||| s == "GamepadHapticActuatorType"@
    ||| s == "GamepadMappingType"@
    ||| s == "GlobalCompositeOperation"@
    ||| s == "HdrMetadataType"@
    ||| s == "IDBCursorDirection"@
    ||| s == "IDBRequestReadyState"@
    ||| s == "IDBTransactionDurability"@
    ||| s == "IDBTransactionMode"@
    ||| s == "ImageOrientation"@
    ||| s == "ImageSmoothingQuality"@
    ||| s == "IterationCompositeOperation"@
    ||| s == "KeyFormat"@
    ||| s == "KeyType"@
    ||| s == "KeyUsage"@
    ||| s == "LineAlignSetting"@
    ||| s == "LockMode"@
    ||| s == "MediaDecodingType"@
    ||| s == "MediaDeviceKind"@
    ||| s == "MediaEncodingType"@
    ||| s == "MediaKeyMessageType"@
    ||| s == "MediaKeySessionClosedReason"@
    ||| s == "MediaKeySessionType"@
    ||| s == "MediaKeyStatus"@
    ||| s == "MediaKeysRequirement"@
    ||| s == "MediaSessionAction"@
    ||| s == "MediaSessionPlaybackState"@
    ||| s == "MediaStreamTrackState"@
    ||| s == "NavigationTimingType"@
    ||| s == "NotificationDirection"@
    ||| s == "NotificationPermission"@
    ||| s == "OrientationLockType"@
    ||| s == "OrientationType"@
    ||| s == "OscillatorType"@
    ||| s == "OverSampleType"@
    ||| s == "PanningModelType"@
}

fn ex_known_string_0(s: &str) -> (r: bool)
    ensures
        r == known_string_0(s@),
{
    str_eq(s, "AlignSetting")
        || str_eq(s, "AnimationPlayState")
        || str_eq(s, "AnimationReplaceState")
        || str_eq(s, "AppendMode")
        || str_eq(s, "AttestationConveyancePreference")
        || str_eq(s, "AudioContextLatencyCategory")
        || str_eq(s, "AudioContextState")
        || str_eq(s, "AuthenticatorAttachment")
        || str_eq(s, "AuthenticatorTransport")
        || str_eq(s, "AutoKeyword")
        || str_eq(s, "AutomationRate")
        || str_eq(s, "BinaryType")
        || str_eq(s, "BiquadFilterType")
        || str_eq(s, "CanPlayTypeResult")
        || str_eq(s, "CanvasDirection")
        || str_eq(s, "CanvasFillRule")
        || str_eq(s, "CanvasFontKerning")
        || str_eq(s, "CanvasFontStretch")
        || str_eq(s, "CanvasFontVariantCaps")
        || str_eq(s, "CanvasLineCap")
        || str_eq(s, "CanvasLineJoin")
        || str_eq(s, "CanvasTextAlign")
        || str_eq(s, "CanvasTextBaseline")
        || str_eq(s, "CanvasTextRendering")
        || str_eq(s, "ChannelCountMode")
        || str_eq(s, "ChannelInterpretation")
        || str_eq(s, "ClientTypes")
        || str_eq(s, "ColorGamut")
        || str_eq(s, "ColorSpaceConversion")
        || str_eq(s, "CompositeOperation")
        || str_eq(s, "CompositeOperationOrAuto")
        || str_eq(s, "CredentialMediationRequirement")
        || str_eq(s, "DOMParserSupportedType")
        || str_eq(s, "DirectionSetting")
        || str_eq(s, "DisplayCaptureSurfaceType")
        || str_eq(s, "DistanceModelType")
        || str_eq(s, "DocumentReadyState")
        || str_eq(s, "DocumentVisibilityState")
        || str_eq(s, "EndOfStreamError")
        || str_eq(s, "EndingType")
        || str_eq(s, "FileSystemHandleKind")
        || str_eq(s, "FillMode")
        || str_eq(s, "FontFaceLoadStatus")
        || str_eq(s, "FontFaceSetLoadStatus")
        || str_eq(s, "FullscreenNavigationUI")
        || str_eq(s, "GamepadHapticActuatorType")
        || str_eq(s, "GamepadMappingType")
        || str_eq(s, "GlobalCompositeOperation")
        || str_eq(s, "HdrMetadataType")
        || str_eq(s, "IDBCursorDirection")
        || str_eq(s, "IDBRequestReadyState")
        || str_eq(s, "IDBTransactionDurability")
        || str_eq(s, "IDBTransactionMode")
        || str_eq(s, "ImageOrientation")
        || str_eq(s, "ImageSmoothingQuality")
        || str_eq(s, "IterationCompositeOperation")
        || str_eq(s, "KeyFormat")
        || str_eq(s, "KeyType")
        || str_eq(s, "KeyUsage")
        || str_eq(s, "LineAlignSetting")
        || str_eq(s, "LockMode")
        || str_eq(s, "MediaDecodingType")
        || str_eq(s, "MediaDeviceKind")
        || str_eq(s, "MediaEncodingType")
        || str_eq(s, "MediaKeyMessageType")
        || str_eq(s, "MediaKeySessionClosedReason")
        || str_eq(s, "MediaKeySessionType")
        || str_eq(s, "MediaKeyStatus")
        || str_eq(s, "MediaKeysRequirement")
        || str_eq(s, "MediaSessionAction")
        || str_eq(s, "MediaSessionPlaybackState")
        || str_eq(s, "MediaStreamTrackState")
        || str_eq(s, "NavigationTimingType")
        || str_eq(s, "NotificationDirection")
        || str_eq(s, "NotificationPermission")
        || str_eq(s, "OrientationLockType")
        || str_eq(s, "OrientationType")
        || str_eq(s, "OscillatorType")
        || str_eq(s, "OverSampleType")
        || str_eq(s, "PanningModelType")
}

pub open spec fn known_string_1(s: Seq<char>) -> bool {
    ||| s == "PaymentComplete"@
    ||| s == "PermissionName"@
    ||| s == "PermissionState"@
    ||| s == "PlaybackDirection"@
    ||| s == "PositionAlignSetting"@
    ||| s == "PredefinedColorSpace"@
    ||| s == "PremultiplyAlpha"@
    ||| s == "PresentationStyle"@
    ||| s == "PublicKeyCredentialType"@
    ||| s == "PushEncryptionKeyName"@
    ||| s == "RTCBundlePolicy"@
    ||| s == "RTCDataChannelState"@
    ||| s == "RTCDegradationPreference"@
    ||| s == "RTCDtlsTransportState"@
    ||| s == "RTCEncodedVideoFrameType"@
    ||| s == "RTCErrorDetailType"@
    ||| s == "RTCIceCandidateType"@
    ||| s == "RTCIceComponent"@
    ||| s == "RTCIceConnectionState"@
    ||| s == "RTCIceCredentialType"@
    ||| s == "RTCIceGathererState"@
    ||| s == "RTCIceGatheringState"@
    ||| s == "RTCIceProtocol"@
    ||| s == "RTCIceTcpCandidateType"@
    ||| s == "RTCIceTransportPolicy"@
    ||| s == "RTCIceTransportState"@
    ||| s == "RTCPeerConnectionState"@
    ||| s == "RTCPriorityType"@
    ||| s == "RTCRtcpMuxPolicy"@
    ||| s == "RTCRtpTransceiverDirection"@
    ||| s == "RTCSctpTransportState"@
    ||| s == "RTCSdpType"@
    ||| s == "RTCSignalingState"@
    ||| s == "RTCStatsIceCandidatePairState"@
    ||| s == "RTCStatsType"@
    ||| s == "ReadyState"@
    ||| s == "RecordingState"@
    ||| s == "ReferrerPolicy"@
    ||| s == "RemotePlaybackState"@
    ||| s == "RequestCache"@
    ||| s == "RequestCredentials"@
    ||| s == "RequestDestination"@
    ||| s == "RequestMode"@
    ||| s == "RequestRedirect"@
    ||| s == "ResidentKeyRequirement"@
    ||| s == "ResizeObserverBoxOptions"@
    ||| s == "ResizeQuality"@
    ||| s == "ResponseType"@
    ||| s == "ScrollBehavior"@
    ||| s == "ScrollLogicalPosition"@
    ||| s == "ScrollRestoration"@
    ||| s == "ScrollSetting"@
    ||| s == "SecurityPolicyViolationEventDisposition"@
    ||| s == "SelectionMode"@
    ||| s == "ServiceWorkerState"@
    ||| s == "ServiceWorkerUpdateViaCache"@
    ||| s == "ShadowRootMode"@
    ||| s == "SlotAssignmentMode"@
    ||| s == "SpeechSynthesisErrorCode"@
    ||| s == "TextTrackKind"@
    ||| s == "TextTrackMode"@
    ||| s == "TouchType"@
    ||| s == "TransferFunction"@
    ||| s == "UserVerificationRequirement"@
    ||| s == "VideoColorPrimaries"@
    ||| s == "VideoFacingModeEnum"@
    ||| s == "VideoMatrixCoefficients"@
    ||| s == "VideoTransferCharacteristics"@
    ||| s == "WebGLPowerPreference"@
    ||| s == "WorkerType"@
    ||| s == "XMLHttpRequestResponseType"@
}

fn ex_known_string_1(s: &str) -> (r: bool)
    ensures
        r == known_string_1(s@),
{
    str_eq(s, "PaymentComplete")
        || str_eq(s, "PermissionName")
        || str_eq(s, "PermissionState")
        || str_eq(s, "PlaybackDirection")
        || str_eq(s, "PositionAlignSetting")
        || str_eq(s, "PredefinedColorSpace")
        || str_eq(s, "PremultiplyAlpha")
        || str_eq(s, "PresentationStyle")
        || str_eq(s, "PublicKeyCredentialType")
        || str_eq(s, "PushEncryptionKeyName")
        || str_eq(s, "RTCBundlePolicy")
        || str_eq(s, "RTCDataChannelState")
        || str_eq(s, "RTCDegradationPreference")
        || str_eq(s, "RTCDtlsTransportState")
        || str_eq(s, "RTCEncodedVideoFrameType")
        || str_eq(s, "RTCErrorDetailType")
        || str_eq(s, "RTCIceCandidateType")
        || str_eq(s, "RTCIceComponent")
        || str_eq(s, "RTCIceConnectionState")
        || str_eq(s, "RTCIceCredentialType")
        || str_eq(s, "RTCIceGathererState")
        || str_eq(s, "RTCIceGatheringState")
        || str_eq(s, "RTCIceProtocol")
        || str_eq(s, "RTCIceTcpCandidateType")
        || str_eq(s, "RTCIceTransportPolicy")
        || str_eq(s, "RTCIceTransportState")
        || str_eq(s, "RTCPeerConnectionState")
        || str_eq(s, "RTCPriorityType")
        || str_eq(s, "RTCRtcpMuxPolicy")
        || str_eq(s, "RTCRtpTransceiverDirection")
        || str_eq(s, "RTCSctpTransportState")
        || str_eq(s, "RTCSdpType")
        || str_eq(s, "RTCSignalingState")
        || str_eq(s, "RTCStatsIceCandidatePairState")
        || str_eq(s, "RTCStatsType")
        || str_eq(s, "ReadyState")
        || str_eq(s, "RecordingState")
        || str_eq(s, "ReferrerPolicy")
        || str_eq(s, "RemotePlaybackState")
        || str_eq(s, "RequestCache")
        || str_eq(s, "RequestCredentials")
        || str_eq(s, "RequestDestination")
        || str_eq(s, "RequestMode")
        || str_eq(s, "RequestRedirect")
        || str_eq(s, "ResidentKeyRequirement")
        || str_eq(s, "ResizeObserverBoxOptions")
        || str_eq(s, "ResizeQuality")
        || str_eq(s, "ResponseType")
        || str_eq(s, "ScrollBehavior")
        || str_eq(s, "ScrollLogicalPosition")
        || str_eq(s, "ScrollRestoration")
        || str_eq(s, "ScrollSetting")
        || str_eq(s, "SecurityPolicyViolationEventDisposition")
        || str_eq(s, "SelectionMode")
        || str_eq(s, "ServiceWorkerState")
        || str_eq(s, "ServiceWorkerUpdateViaCache")
        || str_eq(s, "ShadowRootMode")
        || str_eq(s, "SlotAssignmentMode")
        || str_eq(s, "SpeechSynthesisErrorCode")
        || str_eq(s, "TextTrackKind")
        || str_eq(s, "TextTrackMode")
        || str_eq(s, "TouchType")
        || str_eq(s, "TransferFunction")
        || str_eq(s, "UserVerificationRequirement")
        || str_eq(s, "VideoColorPrimaries")
        || str_eq(s, "VideoFacingModeEnum")
        || str_eq(s, "VideoMatrixCoefficients")
        || str_eq(s, "VideoTransferCharacteristics")
        || str_eq(s, "WebGLPowerPreference")
        || str_eq(s, "WorkerType")
        || str_eq(s, "XMLHttpRequestResponseType")
}

/// Names of external string-enum-like types that map to an owned string.
pub open spec fn known_string_type(s: Seq<char>) -> bool {
    ||| known_string_0(s)
    ||| known_string_1(s)
}

pub fn is_known_string_type(name: &str) -> (r: bool)
    ensures
        r == known_string_type(name@),
{
    ex_known_string_0(name)
        || ex_known_string_1(name)
}

pub open spec fn known_web_0(s: Seq<char>) -> bool {
    ||| s == "AbortController"@
    ||| s == "AbortSignal"@
    ||| s == "AddEventListenerOptions"@
    ||| s == "AesCbcParams"@
    ||| s == "AesCtrParams"@
    ||| s == "AesDerivedKeyParams"@
    ||| s == "AesGcmParams"@
    ||| s == "AesKeyAlgorithm"@
    ||| s == "AesKeyGenParams"@
    ||| s == "Algorithm"@
    ||| s == "AllowedBluetoothDevice"@
    ||| s == "AllowedUsbDevice"@
    ||| s == "AnalyserNode"@
    ||| s == "AnalyserOptions"@
    ||| s == "AngleInstancedArrays"@
    ||| s == "Animation"@
    ||| s == "AnimationEffect"@
    ||| s == "AnimationEvent"@
    ||| s == "AnimationEventInit"@
    ||| s == "AnimationPlaybackEvent"@
    ||| s == "AnimationPlaybackEventInit"@
    ||| s == "AnimationPropertyDetails"@
    ||| s == "AnimationPropertyValueDetails"@
    ||| s == "AnimationTimeline"@
    ||| s == "AssignedNodesOptions"@
    ||| s == "Attr"@
    ||| s == "AttributeNameValue"@
    ||| s == "AudioBuffer"@
    ||| s == "AudioBufferOptions"@
    ||| s == "AudioBufferSourceNode"@
    ||| s == "AudioBufferSourceOptions"@
    ||| s == "AudioConfiguration"@
    ||| s == "AudioContext"@
    ||| s == "AudioContextOptions"@
    ||| s == "AudioData"@
    ||| s == "AudioDataCopyToOptions"@
    ||| s == "AudioDataInit"@
    ||| s == "AudioDecoder"@
    ||| s == "AudioDecoderConfig"@
    ||| s == "AudioDecoderInit"@
    ||| s == "AudioDecoderSupport"@
    ||| s == "AudioDestinationNode"@
    ||| s == "AudioEncoder"@
    ||| s == "AudioEncoderConfig"@
    ||| s == "AudioEncoderInit"@
    ||| s == "AudioEncoderSupport"@
    ||| s == "AudioListener"@
    ||| s == "AudioNode"@
    ||| s == "AudioNodeOptions"@
    ||| s == "AudioParam"@
    ||| s == "AudioParamMap"@
    ||| s == "AudioProcessingEvent"@
    ||| s == "AudioScheduledSourceNode"@
    ||| s == "AudioStreamTrack"@
    ||| s == "AudioTrack"@
    ||| s == "AudioTrackList"@
    ||| s == "AudioWorklet"@
    ||| s == "AudioWorkletGlobalScope"@
    ||| s == "AudioWorkletNode"@
    ||| s == "AudioWorkletNodeOptions"@
    ||| s == "AudioWorkletProcessor"@
    ||| s == "AuthenticationExtensionsClientInputs"@
    ||| s == "AuthenticationExtensionsClientOutputs"@
    ||| s == "AuthenticatorAssertionResponse"@
    ||| s == "AuthenticatorAttestationResponse"@
    ||| s == "AuthenticatorResponse"@
    ||| s == "AuthenticatorSelectionCriteria"@
    ||| s == "AutocompleteInfo"@
    ||| s == "BarProp"@
    ||| s == "BaseAudioContext"@
    ||| s == "BaseComputedKeyframe"@
    ||| s == "BaseKeyframe"@
    ||| s == "BasePropertyIndexedKeyframe"@
    ||| s == "BasicCardRequest"@
    ||| s == "BasicCardResponse"@
    ||| s == "BatteryManager"@
    ||| s == "BeforeUnloadEvent"@
    ||| s == "BiquadFilterNode"@
    ||| s == "BiquadFilterOptions"@
    ||| s == "Blob"@
}

fn ex_known_web_0(s: &str) -> (r: bool)
    ensures
        r == known_web_0(s@),
{
    str_eq(s, "AbortController")
        || str_eq(s, "AbortSignal")
        || str_eq(s, "AddEventListenerOptions")
        || str_eq(s, "AesCbcParams")
        || str_eq(s, "AesCtrParams")
        || str_eq(s, "AesDerivedKeyParams")
        || str_eq(s, "AesGcmParams")
        || str_eq(s, "AesKeyAlgorithm")
        || str_eq(s, "AesKeyGenParams")
        || str_eq(s, "Algorithm")
        || str_eq(s, "AllowedBluetoothDevice")
        || str_eq(s, "AllowedUsbDevice")
        || str_eq(s, "AnalyserNode")
        || str_eq(s, "AnalyserOptions")
        || str_eq(s, "AngleInstancedArrays")
        || str_eq(s, "Animation")
        || str_eq(s, "AnimationEffect")
        || str_eq(s, "AnimationEvent")
        || str_eq(s, "AnimationEventInit")
        || str_eq(s, "AnimationPlaybackEvent")
        || str_eq(s, "AnimationPlaybackEventInit")
        || str_eq(s, "AnimationPropertyDetails")
        || str_eq(s, "AnimationPropertyValueDetails")
        || str_eq(s, "AnimationTimeline")
        || str_eq(s, "AssignedNodesOptions")
        || str_eq(s, "Attr")
        || str_eq(s, "AttributeNameValue")
        || str_eq(s, "AudioBuffer")
        || str_eq(s, "AudioBufferOptions")
        || str_eq(s, "AudioBufferSourceNode")
        || str_eq(s, "AudioBufferSourceOptions")
        || str_eq(s, "AudioConfiguration")
        || str_eq(s, "AudioContext")
        || str_eq(s, "AudioContextOptions")
        || str_eq(s, "AudioData")
        || str_eq(s, "AudioDataCopyToOptions")
        || str_eq(s, "AudioDataInit")
        || str_eq(s, "AudioDecoder")
        || str_eq(s, "AudioDecoderConfig")
        || str_eq(s, "AudioDecoderInit")
        || str_eq(s, "AudioDecoderSupport")
        || str_eq(s, "AudioDestinationNode")
        || str_eq(s, "AudioEncoder")
        || str_eq(s, "AudioEncoderConfig")
        || str_eq(s, "AudioEncoderInit")
        || str_eq(s, "AudioEncoderSupport")
        || str_eq(s, "AudioListener")
        || str_eq(s, "AudioNode")
        || str_eq(s, "AudioNodeOptions")
        || str_eq(s, "AudioParam")
        || str_eq(s, "AudioParamMap")
        || str_eq(s, "AudioProcessingEvent")
        || str_eq(s, "AudioScheduledSourceNode")
        || str_eq(s, "AudioStreamTrack")
        || str_eq(s, "AudioTrack")
        || str_eq(s, "AudioTrackList")
        || str_eq(s, "AudioWorklet")
        || str_eq(s, "AudioWorkletGlobalScope")
        || str_eq(s, "AudioWorkletNode")
        || str_eq(s, "AudioWorkletNodeOptions")
        || str_eq(s, "AudioWorkletProcessor")
        || str_eq(s, "AuthenticationExtensionsClientInputs")
        || str_eq(s, "AuthenticationExtensionsClientOutputs")
        || str_eq(s, "AuthenticatorAssertionResponse")
        || str_eq(s, "AuthenticatorAttestationResponse")
        || str_eq(s, "AuthenticatorResponse")
        || str_eq(s, "AuthenticatorSelectionCriteria")
        || str_eq(s, "AutocompleteInfo")
        || str_eq(s, "BarProp")
        || str_eq(s, "BaseAudioContext")
        || str_eq(s, "BaseComputedKeyframe")
        || str_eq(s, "BaseKeyframe")
        || str_eq(s, "BasePropertyIndexedKeyframe")
        || str_eq(s, "BasicCardRequest")
        || str_eq(s, "BasicCardResponse")
        || str_eq(s, "BatteryManager")
        || str_eq(s, "BeforeUnloadEvent")
        || str_eq(s, "BiquadFilterNode")
        || str_eq(s, "BiquadFilterOptions")
        || str_eq(s, "Blob")
}

pub open spec fn known_web_1(s: Seq<char>) -> bool {
    ||| s == "BlobEvent"@
    ||| s == "BlobEventInit"@
    ||| s == "BlobPropertyBag"@
    ||| s == "BlockParsingOptions"@
    ||| s == "Bluetooth"@
    ||| s == "BluetoothAdvertisingEvent"@
    ||| s == "BluetoothAdvertisingEventInit"@
    ||| s == "BluetoothCharacteristicProperties"@
    ||| s == "BluetoothDataFilterInit"@
    ||| s == "BluetoothDevice"@
    ||| s == "BluetoothLeScanFilterInit"@
    ||| s == "BluetoothManufacturerDataMap"@
    ||| s == "BluetoothPermissionDescriptor"@
    ||| s == "BluetoothPermissionResult"@
    ||| s == "BluetoothPermissionStorage"@
    ||| s == "BluetoothRemoteGattCharacteristic"@
    ||| s == "BluetoothRemoteGattDescriptor"@
    ||| s == "BluetoothRemoteGattServer"@
    ||| s == "BluetoothRemoteGattService"@
    ||| s == "BluetoothServiceDataMap"@
    ||| s == "BluetoothUuid"@
    ||| s == "BoxQuadOptions"@
    ||| s == "BroadcastChannel"@
    ||| s == "BrowserElementDownloadOptions"@
    ||| s == "BrowserElementExecuteScriptOptions"@
    ||| s == "BrowserFeedWriter"@
    ||| s == "ByteLengthQueuingStrategy"@
    ||| s == "Cache"@
    ||| s == "CacheBatchOperation"@
    ||| s == "CacheQueryOptions"@
    ||| s == "CacheStorage"@
    ||| s == "CanvasCaptureMediaStream"@
    ||| s == "CanvasGradient"@
    ||| s == "CanvasPattern"@
    ||| s == "CanvasRenderingContext2d"@
    ||| s == "CaretPosition"@
    ||| s == "CaretStateChangedEventInit"@
    ||| s == "CdataSection"@
    ||| s == "ChannelMergerNode"@
    ||| s == "ChannelMergerOptions"@
    ||| s == "ChannelPixelLayout"@
    ||| s == "ChannelSplitterNode"@
    ||| s == "ChannelSplitterOptions"@
    ||| s == "CharacterData"@
    ||| s == "CheckerboardReport"@
    ||| s == "CheckerboardReportService"@
    ||| s == "ChromeFilePropertyBag"@
    ||| s == "ChromeWorker"@
    ||| s == "Client"@
    ||| s == "ClientQueryOptions"@
    ||| s == "ClientRectsAndTexts"@
    ||| s == "Clients"@
    ||| s == "Clipboard"@
    ||| s == "ClipboardEvent"@
    ||| s == "ClipboardEventInit"@
    ||| s == "ClipboardItem"@
    ||| s == "ClipboardItemOptions"@
    ||| s == "ClipboardPermissionDescriptor"@
    ||| s == "CloseEvent"@
    ||| s == "CloseEventInit"@
    ||| s == "CollectedClientData"@
    ||| s == "Comment"@
    ||| s == "CompositionEvent"@
    ||| s == "CompositionEventInit"@
    ||| s == "ComputedEffectTiming"@
    ||| s == "ConnStatusDict"@
    ||| s == "ConsoleCounter"@
    ||| s == "ConsoleCounterError"@
    ||| s == "ConsoleEvent"@
    ||| s == "ConsoleInstance"@
    ||| s == "ConsoleInstanceOptions"@
    ||| s == "ConsoleProfileEvent"@
    ||| s == "ConsoleStackEntry"@
    ||| s == "ConsoleTimerError"@
    ||| s == "ConsoleTimerLogOrEnd"@
    ||| s == "ConsoleTimerStart"@
    ||| s == "ConstantSourceNode"@
    ||| s == "ConstantSourceOptions"@
    ||| s == "ConstrainBooleanParameters"@
    ||| s == "ConstrainDomStringParameters"@
}

fn ex_known_web_1(s: &str) -> (r: bool)
    ensures
        r == known_web_1(s@),
{
    str_eq(s, "BlobEvent")
        || str_eq(s, "BlobEventInit")
        || str_eq(s, "BlobPropertyBag")
        || str_eq(s, "BlockParsingOptions")
        || str_eq(s, "Bluetooth")
        || str_eq(s, "BluetoothAdvertisingEvent")
        || str_eq(s, "BluetoothAdvertisingEventInit")
        || str_eq(s, "BluetoothCharacteristicProperties")
        || str_eq(s, "BluetoothDataFilterInit")
        || str_eq(s, "BluetoothDevice")
        || str_eq(s, "BluetoothLeScanFilterInit")
        || str_eq(s, "BluetoothManufacturerDataMap")
        || str_eq(s, "BluetoothPermissionDescriptor")
        || str_eq(s, "BluetoothPermissionResult")
        || str_eq(s, "BluetoothPermissionStorage")
        || str_eq(s, "BluetoothRemoteGattCharacteristic")
        || str_eq(s, "BluetoothRemoteGattDescriptor")
        || str_eq(s, "BluetoothRemoteGattServer")
        || str_eq(s, "BluetoothRemoteGattService")
        || str_eq(s, "BluetoothServiceDataMap")
        || str_eq(s, "BluetoothUuid")
        || str_eq(s, "BoxQuadOptions")
        || str_eq(s, "BroadcastChannel")
        || str_eq(s, "BrowserElementDownloadOptions")
        || str_eq(s, "BrowserElementExecuteScriptOptions")
        || str_eq(s, "BrowserFeedWriter")
        || str_eq(s, "ByteLengthQueuingStrategy")
        || str_eq(s, "Cache")
        || str_eq(s, "CacheBatchOperation")
        || str_eq(s, "CacheQueryOptions")
        || str_eq(s, "CacheStorage")
        || str_eq(s, "CanvasCaptureMediaStream")
        || str_eq(s, "CanvasGradient")
        || str_eq(s, "CanvasPattern")
        || str_eq(s, "CanvasRenderingContext2d")
        || str_eq(s, "CaretPosition")
        || str_eq(s, "CaretStateChangedEventInit")
        || str_eq(s, "CdataSection")
        || str_eq(s, "ChannelMergerNode")
        || str_eq(s, "ChannelMergerOptions")
        || str_eq(s, "ChannelPixelLayout")
        || str_eq(s, "ChannelSplitterNode")
        || str_eq(s, "ChannelSplitterOptions")
        || str_eq(s, "CharacterData")
        || str_eq(s, "CheckerboardReport")
        || str_eq(s, "CheckerboardReportService")
        || str_eq(s, "ChromeFilePropertyBag")
        || str_eq(s, "ChromeWorker")
        || str_eq(s, "Client")
        || str_eq(s, "ClientQueryOptions")
        || str_eq(s, "ClientRectsAndTexts")
        || str_eq(s, "Clients")
        || str_eq(s, "Clipboard")
        || str_eq(s, "ClipboardEvent")
        || str_eq(s, "ClipboardEventInit")
        || str_eq(s, "ClipboardItem")
        || str_eq(s, "ClipboardItemOptions")
        || str_eq(s, "ClipboardPermissionDescriptor")
        || str_eq(s, "CloseEvent")
        || str_eq(s, "CloseEventInit")
        || str_eq(s, "CollectedClientData")
        || str_eq(s, "Comment")
        || str_eq(s, "CompositionEvent")
        || str_eq(s, "CompositionEventInit")
        || str_eq(s, "ComputedEffectTiming")
        || str_eq(s, "ConnStatusDict")
        || str_eq(s, "ConsoleCounter")
        || str_eq(s, "ConsoleCounterError")
        || str_eq(s, "ConsoleEvent")
        || str_eq(s, "ConsoleInstance")
        || str_eq(s, "ConsoleInstanceOptions")
        || str_eq(s, "ConsoleProfileEvent")
        || str_eq(s, "ConsoleStackEntry")
        || str_eq(s, "ConsoleTimerError")
        || str_eq(s, "ConsoleTimerLogOrEnd")
        || str_eq(s, "ConsoleTimerStart")
        || str_eq(s, "ConstantSourceNode")
        || str_eq(s, "ConstantSourceOptions")
        || str_eq(s, "ConstrainBooleanParameters")
        || str_eq(s, "ConstrainDomStringParameters")
}

pub open spec fn known_web_2(s: Seq<char>) -> bool {
    ||| s == "ConstrainDoubleRange"@
    ||| s == "ConstrainLongRange"@
    ||| s == "ContextAttributes2d"@
    ||| s == "ConvertCoordinateOptions"@
    ||| s == "ConvolverNode"@
    ||| s == "ConvolverOptions"@
    ||| s == "Coordinates"@
    ||| s == "CountQueuingStrategy"@
    ||| s == "Credential"@
    ||| s == "CredentialCreationOptions"@
    ||| s == "CredentialRequestOptions"@
    ||| s == "CredentialsContainer"@
    ||| s == "Crypto"@
    ||| s == "CryptoKey"@
    ||| s == "CryptoKeyPair"@
    ||| s == "Csp"@
    ||| s == "CspPolicies"@
    ||| s == "CspReport"@
    ||| s == "CspReportProperties"@
    ||| s == "CssAnimation"@
    ||| s == "CssConditionRule"@
    ||| s == "CssCounterStyleRule"@
    ||| s == "CssFontFaceRule"@
    ||| s == "CssFontFeatureValuesRule"@
    ||| s == "CssGroupingRule"@
    ||| s == "CssImportRule"@
    ||| s == "CssKeyframeRule"@
    ||| s == "CssKeyframesRule"@
    ||| s == "CssMediaRule"@
    ||| s == "CssNamespaceRule"@
    ||| s == "CssPageRule"@
    ||| s == "CssPseudoElement"@
    ||| s == "CssRule"@
    ||| s == "CssRuleList"@
    ||| s == "CssStyleDeclaration"@
    ||| s == "CssStyleRule"@
    ||| s == "CssStyleSheet"@
    ||| s == "CssSupportsRule"@
    ||| s == "CssTransition"@
    ||| s == "CustomElementRegistry"@
    ||| s == "CustomEvent"@
    ||| s == "CustomEventInit"@
    ||| s == "DataTransfer"@
    ||| s == "DataTransferItem"@
    ||| s == "DataTransferItemList"@
    ||| s == "DateTimeValue"@
    ||| s == "DecoderDoctorNotification"@
    ||| s == "DedicatedWorkerGlobalScope"@
    ||| s == "DelayNode"@
    ||| s == "DelayOptions"@
    ||| s == "DeviceAcceleration"@
    ||| s == "DeviceAccelerationInit"@
    ||| s == "DeviceLightEvent"@
    ||| s == "DeviceLightEventInit"@
    ||| s == "DeviceMotionEvent"@
    ||| s == "DeviceMotionEventInit"@
    ||| s == "DeviceOrientationEvent"@
    ||| s == "DeviceOrientationEventInit"@
    ||| s == "DeviceProximityEvent"@
    ||| s == "DeviceProximityEventInit"@
    ||| s == "DeviceRotationRate"@
    ||| s == "DeviceRotationRateInit"@
    ||| s == "DhKeyDeriveParams"@
    ||| s == "Directory"@
    ||| s == "DisplayMediaStreamConstraints"@
    ||| s == "DisplayNameOptions"@
    ||| s == "DisplayNameResult"@
    ||| s == "DnsCacheDict"@
    ||| s == "DnsCacheEntry"@
    ||| s == "DnsLookupDict"@
    ||| s == "Document"@
    ||| s == "DocumentFragment"@
    ||| s == "DocumentTimeline"@
    ||| s == "DocumentTimelineOptions"@
    ||| s == "DocumentType"@
    ||| s == "DomError"@
    ||| s == "DomException"@
    ||| s == "DomImplementation"@
    ||| s == "DomMatrix"@
    ||| s == "DomMatrixReadOnly"@
}

fn ex_known_web_2(s: &str) -> (r: bool)
    ensures
        r == known_web_2(s@),
{
    str_eq(s, "ConstrainDoubleRange")
        || str_eq(s, "ConstrainLongRange")
        || str_eq(s, "ContextAttributes2d")
        || str_eq(s, "ConvertCoordinateOptions")
        || str_eq(s, "ConvolverNode")
        || str_eq(s, "ConvolverOptions")
        || str_eq(s, "Coordinates")
        || str_eq(s, "CountQueuingStrategy")
        || str_eq(s, "Credential")
        || str_eq(s, "CredentialCreationOptions")
        || str_eq(s, "CredentialRequestOptions")
        || str_eq(s, "CredentialsContainer")
        || str_eq(s, "Crypto")
        || str_eq(s, "CryptoKey")
        || str_eq(s, "CryptoKeyPair")
        || str_eq(s, "Csp")
        || str_eq(s, "CspPolicies")
        || str_eq(s, "CspReport")
        || str_eq(s, "CspReportProperties")
        || str_eq(s, "CssAnimation")
        || str_eq(s, "CssConditionRule")
        || str_eq(s, "CssCounterStyleRule")
        || str_eq(s, "CssFontFaceRule")
        || str_eq(s, "CssFontFeatureValuesRule")
        || str_eq(s, "CssGroupingRule")
        || str_eq(s, "CssImportRule")
        || str_eq(s, "CssKeyframeRule")
        || str_eq(s, "CssKeyframesRule")
        || str_eq(s, "CssMediaRule")
        || str_eq(s, "CssNamespaceRule")
        || str_eq(s, "CssPageRule")
        || str_eq(s, "CssPseudoElement")
        || str_eq(s, "CssRule")
        || str_eq(s, "CssRuleList")
        || str_eq(s, "CssStyleDeclaration")
        || str_eq(s, "CssStyleRule")
        || str_eq(s, "CssStyleSheet")
        || str_eq(s, "CssSupportsRule")
        || str_eq(s, "CssTransition")
        || str_eq(s, "CustomElementRegistry")
        || str_eq(s, "CustomEvent")
        || str_eq(s, "CustomEventInit")
        || str_eq(s, "DataTransfer")
        || str_eq(s, "DataTransferItem")
        || str_eq(s, "DataTransferItemList")
        || str_eq(s, "DateTimeValue")
        || str_eq(s, "DecoderDoctorNotification")
        || str_eq(s, "DedicatedWorkerGlobalScope")
        || str_eq(s, "DelayNode")
        || str_eq(s, "DelayOptions")
        || str_eq(s, "DeviceAcceleration")
        || str_eq(s, "DeviceAccelerationInit")
        || str_eq(s, "DeviceLightEvent")
        || str_eq(s, "DeviceLightEventInit")
        || str_eq(s, "DeviceMotionEvent")
        || str_eq(s, "DeviceMotionEventInit")
        || str_eq(s, "DeviceOrientationEvent")
        || str_eq(s, "DeviceOrientationEventInit")
        || str_eq(s, "DeviceProximityEvent")
        || str_eq(s, "DeviceProximityEventInit")
        || str_eq(s, "DeviceRotationRate")
        || str_eq(s, "DeviceRotationRateInit")
        || str_eq(s, "DhKeyDeriveParams")
        || str_eq(s, "Directory")
        || str_eq(s, "DisplayMediaStreamConstraints")
        || str_eq(s, "DisplayNameOptions")
        || str_eq(s, "DisplayNameResult")
        || str_eq(s, "DnsCacheDict")
        || str_eq(s, "DnsCacheEntry")
        || str_eq(s, "DnsLookupDict")
        || str_eq(s, "Document")
        || str_eq(s, "DocumentFragment")
        || str_eq(s, "DocumentTimeline")
        || str_eq(s, "DocumentTimelineOptions")
        || str_eq(s, "DocumentType")
        || str_eq(s, "DomError")
        || str_eq(s, "DomException")
        || str_eq(s, "DomImplementation")
        || str_eq(s, "DomMatrix")
        || str_eq(s, "DomMatrixReadOnly")
}

pub open spec fn known_web_3(s: Seq<char>) -> bool {
    ||| s == "DomParser"@
    ||| s == "DomPoint"@
    ||| s == "DomPointInit"@
    ||| s == "DomPointReadOnly"@
    ||| s == "DomQuad"@
    ||| s == "DomQuadInit"@
    ||| s == "DomQuadJson"@
    ||| s == "DomRect"@
    ||| s == "DomRectInit"@
    ||| s == "DomRectList"@
    ||| s == "DomRectReadOnly"@
    ||| s == "DomRequest"@
    ||| s == "DomStringList"@
    ||| s == "DomStringMap"@
    ||| s == "DomTokenList"@
    ||| s == "DomWindowResizeEventDetail"@
    ||| s == "DragEvent"@
    ||| s == "DragEventInit"@
    ||| s == "DynamicsCompressorNode"@
    ||| s == "DynamicsCompressorOptions"@
    ||| s == "EcKeyAlgorithm"@
    ||| s == "EcKeyGenParams"@
    ||| s == "EcKeyImportParams"@
    ||| s == "EcdhKeyDeriveParams"@
    ||| s == "EcdsaParams"@
    ||| s == "EffectTiming"@
    ||| s == "Element"@
    ||| s == "ElementCreationOptions"@
    ||| s == "ElementDefinitionOptions"@
    ||| s == "EncodedAudioChunk"@
    ||| s == "EncodedAudioChunkInit"@
    ||| s == "EncodedAudioChunkMetadata"@
    ||| s == "EncodedVideoChunk"@
    ||| s == "EncodedVideoChunkInit"@
    ||| s == "EncodedVideoChunkMetadata"@
    ||| s == "ErrorCallback"@
    ||| s == "ErrorEvent"@
    ||| s == "ErrorEventInit"@
    ||| s == "Event"@
    ||| s == "EventInit"@
    ||| s == "EventListener"@
    ||| s == "EventListenerOptions"@
    ||| s == "EventModifierInit"@
    ||| s == "EventSource"@
    ||| s == "EventSourceInit"@
    ||| s == "EventTarget"@
    ||| s == "Exception"@
    ||| s == "ExtBlendMinmax"@
    ||| s == "ExtColorBufferFloat"@
    ||| s == "ExtColorBufferHalfFloat"@
    ||| s == "ExtDisjointTimerQuery"@
    ||| s == "ExtFragDepth"@
    ||| s == "ExtSRgb"@
    ||| s == "ExtShaderTextureLod"@
    ||| s == "ExtTextureFilterAnisotropic"@
    ||| s == "ExtendableEvent"@
    ||| s == "ExtendableEventInit"@
    ||| s == "ExtendableMessageEvent"@
    ||| s == "ExtendableMessageEventInit"@
    ||| s == "External"@
    ||| s == "FakePluginMimeEntry"@
    ||| s == "FakePluginTagInit"@
    ||| s == "FetchEvent"@
    ||| s == "FetchEventInit"@
    ||| s == "FetchObserver"@
    ||| s == "FetchReadableStreamReadDataArray"@
    ||| s == "FetchReadableStreamReadDataDone"@
    ||| s == "File"@
    ||| s == "FileCallback"@
    ||| s == "FileList"@
    ||| s == "FilePropertyBag"@
    ||| s == "FileReader"@
    ||| s == "FileReaderSync"@
    ||| s == "FileSystem"@
    ||| s == "FileSystemDirectoryEntry"@
    ||| s == "FileSystemDirectoryReader"@
    ||| s == "FileSystemEntriesCallback"@
    ||| s == "FileSystemEntry"@
    ||| s == "FileSystemEntryCallback"@
    ||| s == "FileSystemFileEntry"@
}

fn ex_known_web_3(s: &str) -> (r: bool)
    ensures
        r == known_web_3(s@),
{
    str_eq(s, "DomParser")
        || str_eq(s, "DomPoint")
        || str_eq(s, "DomPointInit")
        || str_eq(s, "DomPointReadOnly")
        || str_eq(s, "DomQuad")
        || str_eq(s, "DomQuadInit")
        || str_eq(s, "DomQuadJson")
        || str_eq(s, "DomRect")
        || str_eq(s, "DomRectInit")
        || str_eq(s, "DomRectList")
        || str_eq(s, "DomRectReadOnly")
        || str_eq(s, "DomRequest")
        || str_eq(s, "DomStringList")
        || str_eq(s, "DomStringMap")
        || str_eq(s, "DomTokenList")
        || str_eq(s, "DomWindowResizeEventDetail")
        || str_eq(s, "DragEvent")
        || str_eq(s, "DragEventInit")
        || str_eq(s, "DynamicsCompressorNode")
        || str_eq(s, "DynamicsCompressorOptions")
        || str_eq(s, "EcKeyAlgorithm")
        || str_eq(s, "EcKeyGenParams")
        || str_eq(s, "EcKeyImportParams")
        || str_eq(s, "EcdhKeyDeriveParams")
        || str_eq(s, "EcdsaParams")
        || str_eq(s, "EffectTiming")
        || str_eq(s, "Element")
        || str_eq(s, "ElementCreationOptions")
        || str_eq(s, "ElementDefinitionOptions")
        || str_eq(s, "EncodedAudioChunk")
        || str_eq(s, "EncodedAudioChunkInit")
        || str_eq(s, "EncodedAudioChunkMetadata")
        || str_eq(s, "EncodedVideoChunk")
        || str_eq(s, "EncodedVideoChunkInit")
        || str_eq(s, "EncodedVideoChunkMetadata")
        || str_eq(s, "ErrorCallback")
        || str_eq(s, "ErrorEvent")
        || str_eq(s, "ErrorEventInit")
        || str_eq(s, "Event")
        || str_eq(s, "EventInit")
        || str_eq(s, "EventListener")
        || str_eq(s, "EventListenerOptions")
        || str_eq(s, "EventModifierInit")
        || str_eq(s, "EventSource")
        || str_eq(s, "EventSourceInit")
        || str_eq(s, "EventTarget")
        || str_eq(s, "Exception")
        || str_eq(s, "ExtBlendMinmax")
        || str_eq(s, "ExtColorBufferFloat")
        || str_eq(s, "ExtColorBufferHalfFloat")
        || str_eq(s, "ExtDisjointTimerQuery")
        || str_eq(s, "ExtFragDepth")
        || str_eq(s, "ExtSRgb")
        || str_eq(s, "ExtShaderTextureLod")
        || str_eq(s, "ExtTextureFilterAnisotropic")
        || str_eq(s, "ExtendableEvent")
        || str_eq(s, "ExtendableEventInit")
        || str_eq(s, "ExtendableMessageEvent")
        || str_eq(s, "ExtendableMessageEventInit")
        || str_eq(s, "External")
        || str_eq(s, "FakePluginMimeEntry")
        || str_eq(s, "FakePluginTagInit")
        || str_eq(s, "FetchEvent")
        || str_eq(s, "FetchEventInit")
        || str_eq(s, "FetchObserver")
        || str_eq(s, "FetchReadableStreamReadDataArray")
        || str_eq(s, "FetchReadableStreamReadDataDone")
        || str_eq(s, "File")
        || str_eq(s, "FileCallback")
        || str_eq(s, "FileList")
        || str_eq(s, "FilePropertyBag")
        || str_eq(s, "FileReader")
        || str_eq(s, "FileReaderSync")
        || str_eq(s, "FileSystem")
        || str_eq(s, "FileSystemDirectoryEntry")
        || str_eq(s, "FileSystemDirectoryReader")
        || str_eq(s, "FileSystemEntriesCallback")
        || str_eq(s, "FileSystemEntry")
        || str_eq(s, "FileSystemEntryCallback")
        || str_eq(s, "FileSystemFileEntry")
}

pub open spec fn known_web_4(s: Seq<char>) -> bool {
    ||| s == "FileSystemFlags"@
    ||| s == "FocusEvent"@
    ||| s == "FocusEventInit"@
    ||| s == "FontFace"@
    ||| s == "FontFaceDescriptors"@
    ||| s == "FontFaceSet"@
    ||| s == "FontFaceSetIterator"@
    ||| s == "FontFaceSetIteratorResult"@
    ||| s == "FontFaceSetLoadEvent"@
    ||| s == "FontFaceSetLoadEventInit"@
    ||| s == "FormData"@
    ||| s == "FuzzingFunctions"@
    ||| s == "GainNode"@
    ||| s == "GainOptions"@
    ||| s == "Gamepad"@
    ||| s == "GamepadAxisMoveEvent"@
    ||| s == "GamepadAxisMoveEventInit"@
    ||| s == "GamepadButton"@
    ||| s == "GamepadButtonEvent"@
    ||| s == "GamepadButtonEventInit"@
    ||| s == "GamepadEvent"@
    ||| s == "GamepadEventInit"@
    ||| s == "GamepadHapticActuator"@
    ||| s == "GamepadPose"@
    ||| s == "GamepadServiceTest"@
    ||| s == "Geolocation"@
    ||| s == "GetNotificationOptions"@
    ||| s == "GetRootNodeOptions"@
    ||| s == "GetUserMediaRequest"@
    ||| s == "Gpu"@
    ||| s == "GpuAdapter"@
    ||| s == "GpuAdapterInfo"@
    ||| s == "GpuBindGroup"@
    ||| s == "GpuBindGroupDescriptor"@
    ||| s == "GpuBindGroupEntry"@
    ||| s == "GpuBindGroupLayout"@
    ||| s == "GpuBindGroupLayoutDescriptor"@
    ||| s == "GpuBindGroupLayoutEntry"@
    ||| s == "GpuBlendComponent"@
    ||| s == "GpuBlendState"@
    ||| s == "GpuBuffer"@
    ||| s == "GpuBufferBinding"@
    ||| s == "GpuBufferBindingLayout"@
    ||| s == "GpuBufferDescriptor"@
    ||| s == "GpuCanvasConfiguration"@
    ||| s == "GpuCanvasContext"@
    ||| s == "GpuColorDict"@
    ||| s == "GpuColorTargetState"@
    ||| s == "GpuCommandBuffer"@
    ||| s == "GpuCommandBufferDescriptor"@
    ||| s == "GpuCommandEncoder"@
    ||| s == "GpuCommandEncoderDescriptor"@
    ||| s == "GpuCompilationInfo"@
    ||| s == "GpuCompilationMessage"@
    ||| s == "GpuComputePassDescriptor"@
    ||| s == "GpuComputePassEncoder"@
    ||| s == "GpuComputePassTimestampWrite"@
    ||| s == "GpuComputePipeline"@
    ||| s == "GpuComputePipelineDescriptor"@
    ||| s == "GpuDepthStencilState"@
    ||| s == "GpuDevice"@
    ||| s == "GpuDeviceDescriptor"@
    ||| s == "GpuDeviceLostInfo"@
    ||| s == "GpuError"@
    ||| s == "GpuExtent3dDict"@
    ||| s == "GpuExternalTexture"@
    ||| s == "GpuExternalTextureBindingLayout"@
    ||| s == "GpuExternalTextureDescriptor"@
    ||| s == "GpuFragmentState"@
    ||| s == "GpuImageCopyBuffer"@
    ||| s == "GpuImageCopyExternalImage"@
    ||| s == "GpuImageCopyTexture"@
    ||| s == "GpuImageCopyTextureTagged"@
    ||| s == "GpuImageDataLayout"@
    ||| s == "GpuMultisampleState"@
    ||| s == "GpuObjectDescriptorBase"@
    ||| s == "GpuOrigin2dDict"@
    ||| s == "GpuOrigin3dDict"@
    ||| s == "GpuOutOfMemoryError"@
    ||| s == "GpuPipelineDescriptorBase"@
}

fn ex_known_web_4(s: &str) -> (r: bool)
    ensures
        r == known_web_4(s@),
{
    str_eq(s, "FileSystemFlags")
        || str_eq(s, "FocusEvent")
        || str_eq(s, "FocusEventInit")
        || str_eq(s, "FontFace")
        || str_eq(s, "FontFaceDescriptors")
        || str_eq(s, "FontFaceSet")
        || str_eq(s, "FontFaceSetIterator")
        || str_eq(s, "FontFaceSetIteratorResult")
        || str_eq(s, "FontFaceSetLoadEvent")
        || str_eq(s, "FontFaceSetLoadEventInit")
        || str_eq(s, "FormData")
        || str_eq(s, "FuzzingFunctions")
        || str_eq(s, "GainNode")
        || str_eq(s, "GainOptions")
        || str_eq(s, "Gamepad")
        || str_eq(s, "GamepadAxisMoveEvent")
        || str_eq(s, "GamepadAxisMoveEventInit")
        || str_eq(s, "GamepadButton")
        || str_eq(s, "GamepadButtonEvent")
        || str_eq(s, "GamepadButtonEventInit")
        || str_eq(s, "GamepadEvent")
        || str_eq(s, "GamepadEventInit")
        || str_eq(s, "GamepadHapticActuator")
        || str_eq(s, "GamepadPose")
        || str_eq(s, "GamepadServiceTest")
        || str_eq(s, "Geolocation")
        || str_eq(s, "GetNotificationOptions")
        || str_eq(s, "GetRootNodeOptions")
        || str_eq(s, "GetUserMediaRequest")
        || str_eq(s, "Gpu")
        || str_eq(s, "GpuAdapter")
        || str_eq(s, "GpuAdapterInfo")
        || str_eq(s, "GpuBindGroup")
        || str_eq(s, "GpuBindGroupDescriptor")
        || str_eq(s, "GpuBindGroupEntry")
        || str_eq(s, "GpuBindGroupLayout")
        || str_eq(s, "GpuBindGroupLayoutDescriptor")
        || str_eq(s, "GpuBindGroupLayoutEntry")
        || str_eq(s, "GpuBlendComponent")
        || str_eq(s, "GpuBlendState")
        || str_eq(s, "GpuBuffer")
        || str_eq(s, "GpuBufferBinding")
        || str_eq(s, "GpuBufferBindingLayout")
        || str_eq(s, "GpuBufferDescriptor")
        || str_eq(s, "GpuCanvasConfiguration")
        || str_eq(s, "GpuCanvasContext")
        || str_eq(s, "GpuColorDict")
        || str_eq(s, "GpuColorTargetState")
        || str_eq(s, "GpuCommandBuffer")
        || str_eq(s, "GpuCommandBufferDescriptor")
        || str_eq(s, "GpuCommandEncoder")
        || str_eq(s, "GpuCommandEncoderDescriptor")
        || str_eq(s, "GpuCompilationInfo")
        || str_eq(s, "GpuCompilationMessage")
        || str_eq(s, "GpuComputePassDescriptor")
        || str_eq(s, "GpuComputePassEncoder")
        || str_eq(s, "GpuComputePassTimestampWrite")
        || str_eq(s, "GpuComputePipeline")
        || str_eq(s, "GpuComputePipelineDescriptor")
        || str_eq(s, "GpuDepthStencilState")
        || str_eq(s, "GpuDevice")
        || str_eq(s, "GpuDeviceDescriptor")
        || str_eq(s, "GpuDeviceLostInfo")
        || str_eq(s, "GpuError")
        || str_eq(s, "GpuExtent3dDict")
        || str_eq(s, "GpuExternalTexture")
        || str_eq(s, "GpuExternalTextureBindingLayout")
        || str_eq(s, "GpuExternalTextureDescriptor")
        || str_eq(s, "GpuFragmentState")
        || str_eq(s, "GpuImageCopyBuffer")
        || str_eq(s, "GpuImageCopyExternalImage")
        || str_eq(s, "GpuImageCopyTexture")
        || str_eq(s, "GpuImageCopyTextureTagged")
        || str_eq(s, "GpuImageDataLayout")
        || str_eq(s, "GpuMultisampleState")
        || str_eq(s, "GpuObjectDescriptorBase")
        || str_eq(s, "GpuOrigin2dDict")
        || str_eq(s, "GpuOrigin3dDict")
        || str_eq(s, "GpuOutOfMemoryError")
        || str_eq(s, "GpuPipelineDescriptorBase")
}

pub open spec fn known_web_5(s: Seq<char>) -> bool {
    ||| s == "GpuPipelineLayout"@
    ||| s == "GpuPipelineLayoutDescriptor"@
    ||| s == "GpuPrimitiveState"@
    ||| s == "GpuProgrammableStage"@
    ||| s == "GpuQuerySet"@
    ||| s == "GpuQuerySetDescriptor"@
    ||| s == "GpuQueue"@
    ||| s == "GpuQueueDescriptor"@
    ||| s == "GpuRenderBundle"@
    ||| s == "GpuRenderBundleDescriptor"@
    ||| s == "GpuRenderBundleEncoder"@
    ||| s == "GpuRenderBundleEncoderDescriptor"@
    ||| s == "GpuRenderPassColorAttachment"@
    ||| s == "GpuRenderPassDepthStencilAttachment"@
    ||| s == "GpuRenderPassDescriptor"@
    ||| s == "GpuRenderPassEncoder"@
    ||| s == "GpuRenderPassLayout"@
    ||| s == "GpuRenderPassTimestampWrite"@
    ||| s == "GpuRenderPipeline"@
    ||| s == "GpuRenderPipelineDescriptor"@
    ||| s == "GpuRequestAdapterOptions"@
    ||| s == "GpuSampler"@
    ||| s == "GpuSamplerBindingLayout"@
    ||| s == "GpuSamplerDescriptor"@
    ||| s == "GpuShaderModule"@
    ||| s == "GpuShaderModuleCompilationHint"@
    ||| s == "GpuShaderModuleDescriptor"@
    ||| s == "GpuStencilFaceState"@
    ||| s == "GpuStorageTextureBindingLayout"@
    ||| s == "GpuSupportedFeatures"@
    ||| s == "GpuSupportedLimits"@
    ||| s == "GpuTexture"@
    ||| s == "GpuTextureBindingLayout"@
    ||| s == "GpuTextureDescriptor"@
    ||| s == "GpuTextureView"@
    ||| s == "GpuTextureViewDescriptor"@
    ||| s == "GpuUncapturedErrorEvent"@
    ||| s == "GpuUncapturedErrorEventInit"@
    ||| s == "GpuValidationError"@
    ||| s == "GpuVertexAttribute"@
    ||| s == "GpuVertexBufferLayout"@
    ||| s == "GpuVertexState"@
    ||| s == "GroupedHistoryEventInit"@
    ||| s == "HalfOpenInfoDict"@
    ||| s == "HashChangeEvent"@
    ||| s == "HashChangeEventInit"@
    ||| s == "Headers"@
    ||| s == "Hid"@
    ||| s == "HidCollectionInfo"@
    ||| s == "HidConnectionEvent"@
    ||| s == "HidConnectionEventInit"@
    ||| s == "HidDevice"@
    ||| s == "HidDeviceFilter"@
    ||| s == "HidDeviceRequestOptions"@
    ||| s == "HidInputReportEvent"@
    ||| s == "HidInputReportEventInit"@
    ||| s == "HidReportInfo"@
    ||| s == "HidReportItem"@
    ||| s == "HiddenPluginEventInit"@
    ||| s == "History"@
    ||| s == "HitRegionOptions"@
    ||| s == "HkdfParams"@
    ||| s == "HmacDerivedKeyParams"@
    ||| s == "HmacImportParams"@
    ||| s == "HmacKeyAlgorithm"@
    ||| s == "HmacKeyGenParams"@
    ||| s == "HtmlAllCollection"@
    ||| s == "HtmlAnchorElement"@
    ||| s == "HtmlAreaElement"@
    ||| s == "HtmlAudioElement"@
    ||| s == "HtmlBaseElement"@
    ||| s == "HtmlBodyElement"@
    ||| s == "HtmlBrElement"@
    ||| s == "HtmlButtonElement"@
    ||| s == "HtmlCanvasElement"@
    ||| s == "HtmlCollection"@
    ||| s == "HtmlDListElement"@
    ||| s == "HtmlDataElement"@
    ||| s == "HtmlDataListElement"@
    ||| s == "HtmlDetailsElement"@
}

fn ex_known_web_5(s: &str) -> (r: bool)
    ensures
        r == known_web_5(s@),
{
    str_eq(s, "GpuPipelineLayout")
        || str_eq(s, "GpuPipelineLayoutDescriptor")
        || str_eq(s, "GpuPrimitiveState")
        || str_eq(s, "GpuProgrammableStage")
        || str_eq(s, "GpuQuerySet")
        || str_eq(s, "GpuQuerySetDescriptor")
        || str_eq(s, "GpuQueue")
        || str_eq(s, "GpuQueueDescriptor")
        || str_eq(s, "GpuRenderBundle")
        || str_eq(s, "GpuRenderBundleDescriptor")
        || str_eq(s, "GpuRenderBundleEncoder")
        || str_eq(s, "GpuRenderBundleEncoderDescriptor")
        || str_eq(s, "GpuRenderPassColorAttachment")
        || str_eq(s, "GpuRenderPassDepthStencilAttachment")
        || str_eq(s, "GpuRenderPassDescriptor")
        || str_eq(s, "GpuRenderPassEncoder")
        || str_eq(s, "GpuRenderPassLayout")
        || str_eq(s, "GpuRenderPassTimestampWrite")
        || str_eq(s, "GpuRenderPipeline")
        || str_eq(s, "GpuRenderPipelineDescriptor")
        || str_eq(s, "GpuRequestAdapterOptions")
        || str_eq(s, "GpuSampler")
        || str_eq(s, "GpuSamplerBindingLayout")
        || str_eq(s, "GpuSamplerDescriptor")
        || str_eq(s, "GpuShaderModule")
        || str_eq(s, "GpuShaderModuleCompilationHint")
        || str_eq(s, "GpuShaderModuleDescriptor")
        || str_eq(s, "GpuStencilFaceState")
        || str_eq(s, "GpuStorageTextureBindingLayout")
        || str_eq(s, "GpuSupportedFeatures")
        || str_eq(s, "GpuSupportedLimits")
        || str_eq(s, "GpuTexture")
        || str_eq(s, "GpuTextureBindingLayout")
        || str_eq(s, "GpuTextureDescriptor")
        || str_eq(s, "GpuTextureView")
        || str_eq(s, "GpuTextureViewDescriptor")
        || str_eq(s, "GpuUncapturedErrorEvent")
        || str_eq(s, "GpuUncapturedErrorEventInit")
        || str_eq(s, "GpuValidationError")
        || str_eq(s, "GpuVertexAttribute")
        || str_eq(s, "GpuVertexBufferLayout")
        || str_eq(s, "GpuVertexState")
        || str_eq(s, "GroupedHistoryEventInit")
        || str_eq(s, "HalfOpenInfoDict")
        || str_eq(s, "HashChangeEvent")
        || str_eq(s, "HashChangeEventInit")
        || str_eq(s, "Headers")
        || str_eq(s, "Hid")
        || str_eq(s, "HidCollectionInfo")
        || str_eq(s, "HidConnectionEvent")
        || str_eq(s, "HidConnectionEventInit")
        || str_eq(s, "HidDevice")
        || str_eq(s, "HidDeviceFilter")
        || str_eq(s, "HidDeviceRequestOptions")
        || str_eq(s, "HidInputReportEvent")
        || str_eq(s, "HidInputReportEventInit")
        || str_eq(s, "HidReportInfo")
        || str_eq(s, "HidReportItem")
        || str_eq(s, "HiddenPluginEventInit")
        || str_eq(s, "History")
        || str_eq(s, "HitRegionOptions")
        || str_eq(s, "HkdfParams")
        || str_eq(s, "HmacDerivedKeyParams")
        || str_eq(s, "HmacImportParams")
        || str_eq(s, "HmacKeyAlgorithm")
        || str_eq(s, "HmacKeyGenParams")
        || str_eq(s, "HtmlAllCollection")
        || str_eq(s, "HtmlAnchorElement")
        || str_eq(s, "HtmlAreaElement")
        || str_eq(s, "HtmlAudioElement")
        || str_eq(s, "HtmlBaseElement")
        || str_eq(s, "HtmlBodyElement")
        || str_eq(s, "HtmlBrElement")
        || str_eq(s, "HtmlButtonElement")
        || str_eq(s, "HtmlCanvasElement")
        || str_eq(s, "HtmlCollection")
        || str_eq(s, "HtmlDListElement")
        || str_eq(s, "HtmlDataElement")
        || str_eq(s, "HtmlDataListElement")
        || str_eq(s, "HtmlDetailsElement")
}

pub open spec fn known_web_6(s: Seq<char>) -> bool {
    ||| s == "HtmlDialogElement"@
    ||| s == "HtmlDirectoryElement"@
    ||| s == "HtmlDivElement"@
    ||| s == "HtmlDocument"@
    ||| s == "HtmlElement"@
    ||| s == "HtmlEmbedElement"@
    ||| s == "HtmlFieldSetElement"@
    ||| s == "HtmlFontElement"@
    ||| s == "HtmlFormControlsCollection"@
    ||| s == "HtmlFormElement"@
    ||| s == "HtmlFrameElement"@
    ||| s == "HtmlFrameSetElement"@
    ||| s == "HtmlHeadElement"@
    ||| s == "HtmlHeadingElement"@
    ||| s == "HtmlHrElement"@
    ||| s == "HtmlHtmlElement"@
    ||| s == "HtmlIFrameElement"@
    ||| s == "HtmlImageElement"@
    ||| s == "HtmlInputElement"@
    ||| s == "HtmlLabelElement"@
    ||| s == "HtmlLegendElement"@
    ||| s == "HtmlLiElement"@
    ||| s == "HtmlLinkElement"@
    ||| s == "HtmlMapElement"@
    ||| s == "HtmlMediaElement"@
    ||| s == "HtmlMenuElement"@
    ||| s == "HtmlMenuItemElement"@
    ||| s == "HtmlMetaElement"@
    ||| s == "HtmlMeterElement"@
    ||| s == "HtmlModElement"@
    ||| s == "HtmlOListElement"@
    ||| s == "HtmlObjectElement"@
    ||| s == "HtmlOptGroupElement"@
    ||| s == "HtmlOptionElement"@
    ||| s == "HtmlOptionsCollection"@
    ||| s == "HtmlOutputElement"@
    ||| s == "HtmlParagraphElement"@
    ||| s == "HtmlParamElement"@
    ||| s == "HtmlPictureElement"@
    ||| s == "HtmlPreElement"@
    ||| s == "HtmlProgressElement"@
    ||| s == "HtmlQuoteElement"@
    ||| s == "HtmlScriptElement"@
    ||| s == "HtmlSelectElement"@
    ||| s == "HtmlSlotElement"@
    ||| s == "HtmlSourceElement"@
    ||| s == "HtmlSpanElement"@
    ||| s == "HtmlStyleElement"@
    ||| s == "HtmlTableCaptionElement"@
    ||| s == "HtmlTableCellElement"@
    ||| s == "HtmlTableColElement"@
    ||| s == "HtmlTableElement"@
    ||| s == "HtmlTableRowElement"@
    ||| s == "HtmlTableSectionElement"@
    ||| s == "HtmlTemplateElement"@
    ||| s == "HtmlTextAreaElement"@
    ||| s == "HtmlTimeElement"@
    ||| s == "HtmlTitleElement"@
    ||| s == "HtmlTrackElement"@
    ||| s == "HtmlUListElement"@
    ||| s == "HtmlUnknownElement"@
    ||| s == "HtmlVideoElement"@
    ||| s == "HttpConnDict"@
    ||| s == "HttpConnInfo"@
    ||| s == "HttpConnectionElement"@
    ||| s == "IdbCursor"@
    ||| s == "IdbCursorWithValue"@
    ||| s == "IdbDatabase"@
    ||| s == "IdbFactory"@
    ||| s == "IdbFileHandle"@
    ||| s == "IdbFileMetadataParameters"@
    ||| s == "IdbFileRequest"@
    ||| s == "IdbIndex"@
    ||| s == "IdbIndexParameters"@
    ||| s == "IdbKeyRange"@
    ||| s == "IdbLocaleAwareKeyRange"@
    ||| s == "IdbMutableFile"@
    ||| s == "IdbObjectStore"@
    ||| s == "IdbObjectStoreParameters"@
    ||| s == "IdbOpenDbOptions"@
}

fn ex_known_web_6(s: &str) -> (r: bool)
    ensures
        r == known_web_6(s@),
{
    str_eq(s, "HtmlDialogElement")
        || str_eq(s, "HtmlDirectoryElement")
        || str_eq(s, "HtmlDivElement")
        || str_eq(s, "HtmlDocument")
        || str_eq(s, "HtmlElement")
        || str_eq(s, "HtmlEmbedElement")
        || str_eq(s, "HtmlFieldSetElement")
        || str_eq(s, "HtmlFontElement")
        || str_eq(s, "HtmlFormControlsCollection")
        || str_eq(s, "HtmlFormElement")
        || str_eq(s, "HtmlFrameElement")
        || str_eq(s, "HtmlFrameSetElement")
        || str_eq(s, "HtmlHeadElement")
        || str_eq(s, "HtmlHeadingElement")
        || str_eq(s, "HtmlHrElement")
        || str_eq(s, "HtmlHtmlElement")
        || str_eq(s, "HtmlIFrameElement")
        || str_eq(s, "HtmlImageElement")
        || str_eq(s, "HtmlInputElement")
        || str_eq(s, "HtmlLabelElement")
        || str_eq(s, "HtmlLegendElement")
        || str_eq(s, "HtmlLiElement")
        || str_eq(s, "HtmlLinkElement")
        || str_eq(s, "HtmlMapElement")
        || str_eq(s, "HtmlMediaElement")
        || str_eq(s, "HtmlMenuElement")
        || str_eq(s, "HtmlMenuItemElement")
        || str_eq(s, "HtmlMetaElement")
        || str_eq(s, "HtmlMeterElement")
        || str_eq(s, "HtmlModElement")
        || str_eq(s, "HtmlOListElement")
        || str_eq(s, "HtmlObjectElement")
        || str_eq(s, "HtmlOptGroupElement")
        || str_eq(s, "HtmlOptionElement")
        || str_eq(s, "HtmlOptionsCollection")
        || str_eq(s, "HtmlOutputElement")
        || str_eq(s, "HtmlParagraphElement")
        || str_eq(s, "HtmlParamElement")
        || str_eq(s, "HtmlPictureElement")
        || str_eq(s, "HtmlPreElement")
        || str_eq(s, "HtmlProgressElement")
        || str_eq(s, "HtmlQuoteElement")
        || str_eq(s, "HtmlScriptElement")
        || str_eq(s, "HtmlSelectElement")
        || str_eq(s, "HtmlSlotElement")
        || str_eq(s, "HtmlSourceElement")
        || str_eq(s, "HtmlSpanElement")
        || str_eq(s, "HtmlStyleElement")
        || str_eq(s, "HtmlTableCaptionElement")
        || str_eq(s, "HtmlTableCellElement")
        || str_eq(s, "HtmlTableColElement")
        || str_eq(s, "HtmlTableElement")
        || str_eq(s, "HtmlTableRowElement")
        || str_eq(s, "HtmlTableSectionElement")
        || str_eq(s, "HtmlTemplateElement")
        || str_eq(s, "HtmlTextAreaElement")
        || str_eq(s, "HtmlTimeElement")
        || str_eq(s, "HtmlTitleElement")
        || str_eq(s, "HtmlTrackElement")
        || str_eq(s, "HtmlUListElement")
        || str_eq(s, "HtmlUnknownElement")
        || str_eq(s, "HtmlVideoElement")
        || str_eq(s, "HttpConnDict")
        || str_eq(s, "HttpConnInfo")
        || str_eq(s, "HttpConnectionElement")
        || str_eq(s, "IdbCursor")
        || str_eq(s, "IdbCursorWithValue")
        || str_eq(s, "IdbDatabase")
        || str_eq(s, "IdbFactory")
        || str_eq(s, "IdbFileHandle")
        || str_eq(s, "IdbFileMetadataParameters")
        || str_eq(s, "IdbFileRequest")
        || str_eq(s, "IdbIndex")
        || str_eq(s, "IdbIndexParameters")
        || str_eq(s, "IdbKeyRange")
        || str_eq(s, "IdbLocaleAwareKeyRange")
        || str_eq(s, "IdbMutableFile")
        || str_eq(s, "IdbObjectStore")
        || str_eq(s, "IdbObjectStoreParameters")
        || str_eq(s, "IdbOpenDbOptions")
}

pub open spec fn known_web_7(s: Seq<char>) -> bool {
    ||| s == "IdbOpenDbRequest"@
    ||| s == "IdbRequest"@
    ||| s == "IdbTransaction"@
    ||| s == "IdbVersionChangeEvent"@
    ||| s == "IdbVersionChangeEventInit"@
    ||| s == "IdleDeadline"@
    ||| s == "IdleRequestOptions"@
    ||| s == "IirFilterNode"@
    ||| s == "IirFilterOptions"@
    ||| s == "ImageBitmap"@
    ||| s == "ImageBitmapRenderingContext"@
    ||| s == "ImageCapture"@
    ||| s == "ImageCaptureError"@
    ||| s == "ImageCaptureErrorEvent"@
    ||| s == "ImageCaptureErrorEventInit"@
    ||| s == "ImageData"@
    ||| s == "ImageDecodeOptions"@
    ||| s == "ImageDecodeResult"@
    ||| s == "ImageDecoder"@
    ||| s == "ImageDecoderInit"@
    ||| s == "ImageTrack"@
    ||| s == "ImageTrackList"@
    ||| s == "InputEvent"@
    ||| s == "InputEventInit"@
    ||| s == "InstallTriggerData"@
    ||| s == "IntersectionObserver"@
    ||| s == "IntersectionObserverEntry"@
    ||| s == "IntersectionObserverEntryInit"@
    ||| s == "IntersectionObserverInit"@
    ||| s == "IntlUtils"@
    ||| s == "IterableKeyAndValueResult"@
    ||| s == "IterableKeyOrValueResult"@
    ||| s == "JsonWebKey"@
    ||| s == "KeyAlgorithm"@
    ||| s == "KeyEvent"@
    ||| s == "KeyIdsInitData"@
    ||| s == "KeyboardEvent"@
    ||| s == "KeyboardEventInit"@
    ||| s == "KeyframeEffect"@
    ||| s == "KeyframeEffectOptions"@
    ||| s == "L10nElement"@
    ||| s == "L10nValue"@
    ||| s == "LifecycleCallbacks"@
    ||| s == "ListBoxObject"@
    ||| s == "LocalMediaStream"@
    ||| s == "LocaleInfo"@
    ||| s == "Location"@
    ||| s == "MediaCapabilities"@
    ||| s == "MediaCapabilitiesInfo"@
    ||| s == "MediaConfiguration"@
    ||| s == "MediaDecodingConfiguration"@
    ||| s == "MediaDeviceInfo"@
    ||| s == "MediaDevices"@
    ||| s == "MediaElementAudioSourceNode"@
    ||| s == "MediaElementAudioSourceOptions"@
    ||| s == "MediaEncodingConfiguration"@
    ||| s == "MediaEncryptedEvent"@
    ||| s == "MediaError"@
    ||| s == "MediaImage"@
    ||| s == "MediaKeyError"@
    ||| s == "MediaKeyMessageEvent"@
    ||| s == "MediaKeyMessageEventInit"@
    ||| s == "MediaKeyNeededEventInit"@
    ||| s == "MediaKeySession"@
    ||| s == "MediaKeyStatusMap"@
    ||| s == "MediaKeySystemAccess"@
    ||| s == "MediaKeySystemConfiguration"@
    ||| s == "MediaKeySystemMediaCapability"@
    ||| s == "MediaKeys"@
    ||| s == "MediaKeysPolicy"@
    ||| s == "MediaList"@
    ||| s == "MediaMetadata"@
    ||| s == "MediaMetadataInit"@
    ||| s == "MediaPositionState"@
    ||| s == "MediaQueryList"@
    ||| s == "MediaQueryListEvent"@
    ||| s == "MediaQueryListEventInit"@
    ||| s == "MediaRecorder"@
    ||| s == "MediaRecorderErrorEvent"@
    ||| s == "MediaRecorderErrorEventInit"@
}

fn ex_known_web_7(s: &str) -> (r: bool)
    ensures
        r == known_web_7(s@),
{
    str_eq(s, "IdbOpenDbRequest")
        || str_eq(s, "IdbRequest")
        || str_eq(s, "IdbTransaction")
        || str_eq(s, "IdbVersionChangeEvent")
        || str_eq(s, "IdbVersionChangeEventInit")
        || str_eq(s, "IdleDeadline")
        || str_eq(s, "IdleRequestOptions")
        || str_eq(s, "IirFilterNode")
        || str_eq(s, "IirFilterOptions")
        || str_eq(s, "ImageBitmap")
        || str_eq(s, "ImageBitmapRenderingContext")
        || str_eq(s, "ImageCapture")
        || str_eq(s, "ImageCaptureError")
        || str_eq(s, "ImageCaptureErrorEvent")
        || str_eq(s, "ImageCaptureErrorEventInit")
        || str_eq(s, "ImageData")
        || str_eq(s, "ImageDecodeOptions")
        || str_eq(s, "ImageDecodeResult")
        || str_eq(s, "ImageDecoder")
        || str_eq(s, "ImageDecoderInit")
        || str_eq(s, "ImageTrack")
        || str_eq(s, "ImageTrackList")
        || str_eq(s, "InputEvent")
        || str_eq(s, "InputEventInit")
        || str_eq(s, "InstallTriggerData")
        || str_eq(s, "IntersectionObserver")
        || str_eq(s, "IntersectionObserverEntry")
        || str_eq(s, "IntersectionObserverEntryInit")
        || str_eq(s, "IntersectionObserverInit")
        || str_eq(s, "IntlUtils")
        || str_eq(s, "IterableKeyAndValueResult")
        || str_eq(s, "IterableKeyOrValueResult")
        || str_eq(s, "JsonWebKey")
        || str_eq(s, "KeyAlgorithm")
        || str_eq(s, "KeyEvent")
        || str_eq(s, "KeyIdsInitData")
        || str_eq(s, "KeyboardEvent")
        || str_eq(s, "KeyboardEventInit")
        || str_eq(s, "KeyframeEffect")
        || str_eq(s, "KeyframeEffectOptions")
        || str_eq(s, "L10nElement")
        || str_eq(s, "L10nValue")
        || str_eq(s, "LifecycleCallbacks")
        || str_eq(s, "ListBoxObject")
        || str_eq(s, "LocalMediaStream")
        || str_eq(s, "LocaleInfo")
        || str_eq(s, "Location")
        || str_eq(s, "MediaCapabilities")
        || str_eq(s, "MediaCapabilitiesInfo")
        || str_eq(s, "MediaConfiguration")
        || str_eq(s, "MediaDecodingConfiguration")
        || str_eq(s, "MediaDeviceInfo")
        || str_eq(s, "MediaDevices")
        || str_eq(s, "MediaElementAudioSourceNode")
        || str_eq(s, "MediaElementAudioSourceOptions")
        || str_eq(s, "MediaEncodingConfiguration")
        || str_eq(s, "MediaEncryptedEvent")
        || str_eq(s, "MediaError")
        || str_eq(s, "MediaImage")
        || str_eq(s, "MediaKeyError")
        || str_eq(s, "MediaKeyMessageEvent")
        || str_eq(s, "MediaKeyMessageEventInit")
        || str_eq(s, "MediaKeyNeededEventInit")
        || str_eq(s, "MediaKeySession")
        || str_eq(s, "MediaKeyStatusMap")
        || str_eq(s, "MediaKeySystemAccess")
        || str_eq(s, "MediaKeySystemConfiguration")
        || str_eq(s, "MediaKeySystemMediaCapability")
        || str_eq(s, "MediaKeys")
        || str_eq(s, "MediaKeysPolicy")
        || str_eq(s, "MediaList")
        || str_eq(s, "MediaMetadata")
        || str_eq(s, "MediaMetadataInit")
        || str_eq(s, "MediaPositionState")
        || str_eq(s, "MediaQueryList")
        || str_eq(s, "MediaQueryListEvent")
        || str_eq(s, "MediaQueryListEventInit")
        || str_eq(s, "MediaRecorder")
        || str_eq(s, "MediaRecorderErrorEvent")
        || str_eq(s, "MediaRecorderErrorEventInit")
}

pub open spec fn known_web_8(s: Seq<char>) -> bool {
    ||| s == "MediaRecorderOptions"@
    ||| s == "MediaSession"@
    ||| s == "MediaSessionActionDetails"@
    ||| s == "MediaSource"@
    ||| s == "MediaStream"@
    ||| s == "MediaStreamAudioDestinationNode"@
    ||| s == "MediaStreamAudioSourceNode"@
    ||| s == "MediaStreamAudioSourceOptions"@
    ||| s == "MediaStreamConstraints"@
    ||| s == "MediaStreamError"@
    ||| s == "MediaStreamEvent"@
    ||| s == "MediaStreamEventInit"@
    ||| s == "MediaStreamTrack"@
    ||| s == "MediaStreamTrackEvent"@
    ||| s == "MediaStreamTrackEventInit"@
    ||| s == "MediaStreamTrackGenerator"@
    ||| s == "MediaStreamTrackGeneratorInit"@
    ||| s == "MediaStreamTrackProcessor"@
    ||| s == "MediaStreamTrackProcessorInit"@
    ||| s == "MediaTrackConstraintSet"@
    ||| s == "MediaTrackConstraints"@
    ||| s == "MediaTrackSettings"@
    ||| s == "MediaTrackSupportedConstraints"@
    ||| s == "MessageChannel"@
    ||| s == "MessageEvent"@
    ||| s == "MessageEventInit"@
    ||| s == "MessagePort"@
    ||| s == "MidiAccess"@
    ||| s == "MidiConnectionEvent"@
    ||| s == "MidiConnectionEventInit"@
    ||| s == "MidiInput"@
    ||| s == "MidiInputMap"@
    ||| s == "MidiMessageEvent"@
    ||| s == "MidiMessageEventInit"@
    ||| s == "MidiOptions"@
    ||| s == "MidiOutput"@
    ||| s == "MidiOutputMap"@
    ||| s == "MidiPort"@
    ||| s == "MimeType"@
    ||| s == "MimeTypeArray"@
    ||| s == "MouseEvent"@
    ||| s == "MouseEventInit"@
    ||| s == "MouseScrollEvent"@
    ||| s == "MozDebug"@
    ||| s == "MutationEvent"@
    ||| s == "MutationObserver"@
    ||| s == "MutationObserverInit"@
    ||| s == "MutationObservingInfo"@
    ||| s == "MutationRecord"@
    ||| s == "NamedNodeMap"@
    ||| s == "NativeOsFileReadOptions"@
    ||| s == "NativeOsFileWriteAtomicOptions"@
    ||| s == "Navigator"@
    ||| s == "NavigatorAutomationInformation"@
    ||| s == "NetworkCommandOptions"@
    ||| s == "NetworkInformation"@
    ||| s == "NetworkResultOptions"@
    ||| s == "Node"@
    ||| s == "NodeFilter"@
    ||| s == "NodeIterator"@
    ||| s == "NodeList"@
    ||| s == "Notification"@
    ||| s == "NotificationBehavior"@
    ||| s == "NotificationEvent"@
    ||| s == "NotificationEventInit"@
    ||| s == "NotificationOptions"@
    ||| s == "ObserverCallback"@
    ||| s == "OesElementIndexUint"@
    ||| s == "OesStandardDerivatives"@
    ||| s == "OesTextureFloat"@
    ||| s == "OesTextureFloatLinear"@
    ||| s == "OesTextureHalfFloat"@
    ||| s == "OesTextureHalfFloatLinear"@
    ||| s == "OesVertexArrayObject"@
    ||| s == "OfflineAudioCompletionEvent"@
    ||| s == "OfflineAudioCompletionEventInit"@
    ||| s == "OfflineAudioContext"@
    ||| s == "OfflineAudioContextOptions"@
    ||| s == "OfflineResourceList"@
    ||| s == "OffscreenCanvas"@
}

fn ex_known_web_8(s: &str) -> (r: bool)
    ensures
        r == known_web_8(s@),
{
    str_eq(s, "MediaRecorderOptions")
        || str_eq(s, "MediaSession")
        || str_eq(s, "MediaSessionActionDetails")
        || str_eq(s, "MediaSource")
        || str_eq(s, "MediaStream")
        || str_eq(s, "MediaStreamAudioDestinationNode")
        || str_eq(s, "MediaStreamAudioSourceNode")
        || str_eq(s, "MediaStreamAudioSourceOptions")
        || str_eq(s, "MediaStreamConstraints")
        || str_eq(s, "MediaStreamError")
        || str_eq(s, "MediaStreamEvent")
        || str_eq(s, "MediaStreamEventInit")
        || str_eq(s, "MediaStreamTrack")
        || str_eq(s, "MediaStreamTrackEvent")
        || str_eq(s, "MediaStreamTrackEventInit")
        || str_eq(s, "MediaStreamTrackGenerator")
        || str_eq(s, "MediaStreamTrackGeneratorInit")
        || str_eq(s, "MediaStreamTrackProcessor")
        || str_eq(s, "MediaStreamTrackProcessorInit")
        || str_eq(s, "MediaTrackConstraintSet")
        || str_eq(s, "MediaTrackConstraints")
        || str_eq(s, "MediaTrackSettings")
        || str_eq(s, "MediaTrackSupportedConstraints")
        || str_eq(s, "MessageChannel")
        || str_eq(s, "MessageEvent")
        || str_eq(s, "MessageEventInit")
        || str_eq(s, "MessagePort")
        || str_eq(s, "MidiAccess")
        || str_eq(s, "MidiConnectionEvent")
        || str_eq(s, "MidiConnectionEventInit")
        || str_eq(s, "MidiInput")
        || str_eq(s, "MidiInputMap")
        || str_eq(s, "MidiMessageEvent")
        || str_eq(s, "MidiMessageEventInit")
        || str_eq(s, "MidiOptions")
        || str_eq(s, "MidiOutput")
        || str_eq(s, "MidiOutputMap")
        || str_eq(s, "MidiPort")
        || str_eq(s, "MimeType")
        || str_eq(s, "MimeTypeArray")
        || str_eq(s, "MouseEvent")
        || str_eq(s, "MouseEventInit")
        || str_eq(s, "MouseScrollEvent")
        || str_eq(s, "MozDebug")
        || str_eq(s, "MutationEvent")
        || str_eq(s, "MutationObserver")
        || str_eq(s, "MutationObserverInit")
        || str_eq(s, "MutationObservingInfo")
        || str_eq(s, "MutationRecord")
        || str_eq(s, "NamedNodeMap")
        || str_eq(s, "NativeOsFileReadOptions")
        || str_eq(s, "NativeOsFileWriteAtomicOptions")
        || str_eq(s, "Navigator")
        || str_eq(s, "NavigatorAutomationInformation")
        || str_eq(s, "NetworkCommandOptions")
        || str_eq(s, "NetworkInformation")
        || str_eq(s, "NetworkResultOptions")
        || str_eq(s, "Node")
        || str_eq(s, "NodeFilter")
        || str_eq(s, "NodeIterator")
        || str_eq(s, "NodeList")
        || str_eq(s, "Notification")
        || str_eq(s, "NotificationBehavior")
        || str_eq(s, "NotificationEvent")
        || str_eq(s, "NotificationEventInit")
        || str_eq(s, "NotificationOptions")
        || str_eq(s, "ObserverCallback")
        || str_eq(s, "OesElementIndexUint")
        || str_eq(s, "OesStandardDerivatives")
        || str_eq(s, "OesTextureFloat")
        || str_eq(s, "OesTextureFloatLinear")
        || str_eq(s, "OesTextureHalfFloat")
        || str_eq(s, "OesTextureHalfFloatLinear")
        || str_eq(s, "OesVertexArrayObject")
        || str_eq(s, "OfflineAudioCompletionEvent")
        || str_eq(s, "OfflineAudioCompletionEventInit")
        || str_eq(s, "OfflineAudioContext")
        || str_eq(s, "OfflineAudioContextOptions")
        || str_eq(s, "OfflineResourceList")
        || str_eq(s, "OffscreenCanvas")
}

pub open spec fn known_web_9(s: Seq<char>) -> bool {
    ||| s == "OpenWindowEventDetail"@
    ||| s == "OptionalEffectTiming"@
    ||| s == "OscillatorNode"@
    ||| s == "OscillatorOptions"@
    ||| s == "OvrMultiview2"@
    ||| s == "PageTransitionEvent"@
    ||| s == "PageTransitionEventInit"@
    ||| s == "PaintRequest"@
    ||| s == "PaintRequestList"@
    ||| s == "PaintWorkletGlobalScope"@
    ||| s == "PannerNode"@
    ||| s == "PannerOptions"@
    ||| s == "Path2d"@
    ||| s == "PaymentAddress"@
    ||| s == "PaymentMethodChangeEvent"@
    ||| s == "PaymentMethodChangeEventInit"@
    ||| s == "PaymentRequestUpdateEvent"@
    ||| s == "PaymentRequestUpdateEventInit"@
    ||| s == "PaymentResponse"@
    ||| s == "Pbkdf2Params"@
    ||| s == "Performance"@
    ||| s == "PerformanceEntry"@
    ||| s == "PerformanceEntryEventInit"@
    ||| s == "PerformanceEntryFilterOptions"@
    ||| s == "PerformanceMark"@
    ||| s == "PerformanceMeasure"@
    ||| s == "PerformanceNavigation"@
    ||| s == "PerformanceNavigationTiming"@
    ||| s == "PerformanceObserver"@
    ||| s == "PerformanceObserverEntryList"@
    ||| s == "PerformanceObserverInit"@
    ||| s == "PerformanceResourceTiming"@
    ||| s == "PerformanceServerTiming"@
    ||| s == "PerformanceTiming"@
    ||| s == "PeriodicWave"@
    ||| s == "PeriodicWaveConstraints"@
    ||| s == "PeriodicWaveOptions"@
    ||| s == "PermissionDescriptor"@
    ||| s == "PermissionStatus"@
    ||| s == "Permissions"@
    ||| s == "PlaneLayout"@
    ||| s == "Plugin"@
    ||| s == "PluginArray"@
    ||| s == "PluginCrashedEventInit"@
    ||| s == "PointerEvent"@
    ||| s == "PointerEventInit"@
    ||| s == "PopStateEvent"@
    ||| s == "PopStateEventInit"@
    ||| s == "PopupBlockedEvent"@
    ||| s == "PopupBlockedEventInit"@
    ||| s == "Position"@
    ||| s == "PositionError"@
    ||| s == "PositionOptions"@
    ||| s == "Presentation"@
    ||| s == "PresentationAvailability"@
    ||| s == "PresentationConnection"@
    ||| s == "PresentationConnectionAvailableEvent"@
    ||| s == "PresentationConnectionAvailableEventInit"@
    ||| s == "PresentationConnectionCloseEvent"@
    ||| s == "PresentationConnectionCloseEventInit"@
    ||| s == "PresentationConnectionList"@
    ||| s == "PresentationReceiver"@
    ||| s == "PresentationRequest"@
    ||| s == "ProcessingInstruction"@
    ||| s == "ProfileTimelineLayerRect"@
    ||| s == "ProfileTimelineMarker"@
    ||| s == "ProfileTimelineStackFrame"@
    ||| s == "ProgressEvent"@
    ||| s == "ProgressEventInit"@
    ||| s == "PromiseNativeHandler"@
    ||| s == "PromiseRejectionEvent"@
    ||| s == "PromiseRejectionEventInit"@
    ||| s == "PublicKeyCredential"@
    ||| s == "PublicKeyCredentialCreationOptions"@
    ||| s == "PublicKeyCredentialDescriptor"@
    ||| s == "PublicKeyCredentialEntity"@
    ||| s == "PublicKeyCredentialParameters"@
    ||| s == "PublicKeyCredentialRequestOptions"@
    ||| s == "PublicKeyCredentialRpEntity"@
    ||| s == "PublicKeyCredentialUserEntity"@
}

fn ex_known_web_9(s: &str) -> (r: bool)
    ensures
        r == known_web_9(s@),
{
    str_eq(s, "OpenWindowEventDetail")
        || str_eq(s, "OptionalEffectTiming")
        || str_eq(s, "OscillatorNode")
        || str_eq(s, "OscillatorOptions")
        || str_eq(s, "OvrMultiview2")
        || str_eq(s, "PageTransitionEvent")
        || str_eq(s, "PageTransitionEventInit")
        || str_eq(s, "PaintRequest")
        || str_eq(s, "PaintRequestList")
        || str_eq(s, "PaintWorkletGlobalScope")
        || str_eq(s, "PannerNode")
        || str_eq(s, "PannerOptions")
        || str_eq(s, "Path2d")
        || str_eq(s, "PaymentAddress")
        || str_eq(s, "PaymentMethodChangeEvent")
        || str_eq(s, "PaymentMethodChangeEventInit")
        || str_eq(s, "PaymentRequestUpdateEvent")
        || str_eq(s, "PaymentRequestUpdateEventInit")
        || str_eq(s, "PaymentResponse")
        || str_eq(s, "Pbkdf2Params")
        || str_eq(s, "Performance")
        || str_eq(s, "PerformanceEntry")
        || str_eq(s, "PerformanceEntryEventInit")
        || str_eq(s, "PerformanceEntryFilterOptions")
        || str_eq(s, "PerformanceMark")
        || str_eq(s, "PerformanceMeasure")
        || str_eq(s, "PerformanceNavigation")
        || str_eq(s, "PerformanceNavigationTiming")
        || str_eq(s, "PerformanceObserver")
        || str_eq(s, "PerformanceObserverEntryList")
        || str_eq(s, "PerformanceObserverInit")
        || str_eq(s, "PerformanceResourceTiming")
        || str_eq(s, "PerformanceServerTiming")
        || str_eq(s, "PerformanceTiming")
        || str_eq(s, "PeriodicWave")
        || str_eq(s, "PeriodicWaveConstraints")
        || str_eq(s, "PeriodicWaveOptions")
        || str_eq(s, "PermissionDescriptor")
        || str_eq(s, "PermissionStatus")
        || str_eq(s, "Permissions")
        || str_eq(s, "PlaneLayout")
        || str_eq(s, "Plugin")
        || str_eq(s, "PluginArray")
        || str_eq(s, "PluginCrashedEventInit")
        || str_eq(s, "PointerEvent")
        || str_eq(s, "PointerEventInit")
        || str_eq(s, "PopStateEvent")
        || str_eq(s, "PopStateEventInit")
        || str_eq(s, "PopupBlockedEvent")
        || str_eq(s, "PopupBlockedEventInit")
        || str_eq(s, "Position")
        || str_eq(s, "PositionError")
        || str_eq(s, "PositionOptions")
        || str_eq(s, "Presentation")
        || str_eq(s, "PresentationAvailability")
        || str_eq(s, "PresentationConnection")
        || str_eq(s, "PresentationConnectionAvailableEvent")
        || str_eq(s, "PresentationConnectionAvailableEventInit")
        || str_eq(s, "PresentationConnectionCloseEvent")
        || str_eq(s, "PresentationConnectionCloseEventInit")
        || str_eq(s, "PresentationConnectionList")
        || str_eq(s, "PresentationReceiver")
        || str_eq(s, "PresentationRequest")
        || str_eq(s, "ProcessingInstruction")
        || str_eq(s, "ProfileTimelineLayerRect")
        || str_eq(s, "ProfileTimelineMarker")
        || str_eq(s, "ProfileTimelineStackFrame")
        || str_eq(s, "ProgressEvent")
        || str_eq(s, "ProgressEventInit")
        || str_eq(s, "PromiseNativeHandler")
        || str_eq(s, "PromiseRejectionEvent")
        || str_eq(s, "PromiseRejectionEventInit")
        || str_eq(s, "PublicKeyCredential")
        || str_eq(s, "PublicKeyCredentialCreationOptions")
        || str_eq(s, "PublicKeyCredentialDescriptor")
        || str_eq(s, "PublicKeyCredentialEntity")
        || str_eq(s, "PublicKeyCredentialParameters")
        || str_eq(s, "PublicKeyCredentialRequestOptions")
        || str_eq(s, "PublicKeyCredentialRpEntity")
        || str_eq(s, "PublicKeyCredentialUserEntity")
}

pub open spec fn known_web_10(s: Seq<char>) -> bool {
    ||| s == "PushEvent"@
    ||| s == "PushEventInit"@
    ||| s == "PushManager"@
    ||| s == "PushMessageData"@
    ||| s == "PushSubscription"@
    ||| s == "PushSubscriptionInit"@
    ||| s == "PushSubscriptionJson"@
    ||| s == "PushSubscriptionKeys"@
    ||| s == "PushSubscriptionOptions"@
    ||| s == "PushSubscriptionOptionsInit"@
    ||| s == "QueuingStrategy"@
    ||| s == "QueuingStrategyInit"@
    ||| s == "RadioNodeList"@
    ||| s == "Range"@
    ||| s == "RcwnPerfStats"@
    ||| s == "RcwnStatus"@
    ||| s == "ReadableByteStreamController"@
    ||| s == "ReadableStream"@
    ||| s == "ReadableStreamByobReader"@
    ||| s == "ReadableStreamByobRequest"@
    ||| s == "ReadableStreamDefaultController"@
    ||| s == "ReadableStreamDefaultReader"@
    ||| s == "ReadableStreamGetReaderOptions"@
    ||| s == "ReadableStreamIteratorOptions"@
    ||| s == "ReadableStreamReadResult"@
    ||| s == "ReadableWritablePair"@
    ||| s == "RegisterRequest"@
    ||| s == "RegisterResponse"@
    ||| s == "RegisteredKey"@
    ||| s == "RegistrationOptions"@
    ||| s == "Request"@
    ||| s == "RequestDeviceOptions"@
    ||| s == "RequestInit"@
    ||| s == "RequestMediaKeySystemAccessNotification"@
    ||| s == "ResizeObserver"@
    ||| s == "ResizeObserverEntry"@
    ||| s == "ResizeObserverOptions"@
    ||| s == "ResizeObserverSize"@
    ||| s == "Response"@
    ||| s == "ResponseInit"@
    ||| s == "RsaHashedImportParams"@
    ||| s == "RsaOaepParams"@
    ||| s == "RsaOtherPrimesInfo"@
    ||| s == "RsaPssParams"@
    ||| s == "RtcAnswerOptions"@
    ||| s == "RtcCertificate"@
    ||| s == "RtcCertificateExpiration"@
    ||| s == "RtcCodecStats"@
    ||| s == "RtcConfiguration"@
    ||| s == "RtcDataChannel"@
    ||| s == "RtcDataChannelEvent"@
    ||| s == "RtcDataChannelEventInit"@
    ||| s == "RtcDataChannelInit"@
    ||| s == "RtcFecParameters"@
    ||| s == "RtcIceCandidate"@
    ||| s == "RtcIceCandidateInit"@
    ||| s == "RtcIceCandidatePairStats"@
    ||| s == "RtcIceCandidateStats"@
    ||| s == "RtcIceComponentStats"@
    ||| s == "RtcIceServer"@
    ||| s == "RtcIdentityAssertion"@
    ||| s == "RtcIdentityAssertionResult"@
    ||| s == "RtcIdentityProvider"@
    ||| s == "RtcIdentityProviderDetails"@
    ||| s == "RtcIdentityProviderOptions"@
    ||| s == "RtcIdentityProviderRegistrar"@
    ||| s == "RtcIdentityValidationResult"@
    ||| s == "RtcInboundRtpStreamStats"@
    ||| s == "RtcMediaStreamStats"@
    ||| s == "RtcMediaStreamTrackStats"@
    ||| s == "RtcOfferAnswerOptions"@
    ||| s == "RtcOfferOptions"@
    ||| s == "RtcOutboundRtpStreamStats"@
    ||| s == "RtcPeerConnection"@
    ||| s == "RtcPeerConnectionIceEvent"@
    ||| s == "RtcPeerConnectionIceEventInit"@
    ||| s == "RtcRtcpParameters"@
    ||| s == "RtcRtpCodecParameters"@
    ||| s == "RtcRtpContributingSource"@
    ||| s == "RtcRtpEncodingParameters"@
}

fn ex_known_web_10(s: &str) -> (r: bool)
    ensures
        r == known_web_10(s@),
{
    str_eq(s, "PushEvent")
        || str_eq(s, "PushEventInit")
        || str_eq(s, "PushManager")
        || str_eq(s, "PushMessageData")
        || str_eq(s, "PushSubscription")
        || str_eq(s, "PushSubscriptionInit")
        || str_eq(s, "PushSubscriptionJson")
        || str_eq(s, "PushSubscriptionKeys")
        || str_eq(s, "PushSubscriptionOptions")
        || str_eq(s, "PushSubscriptionOptionsInit")
        || str_eq(s, "QueuingStrategy")
        || str_eq(s, "QueuingStrategyInit")
        || str_eq(s, "RadioNodeList")
        || str_eq(s, "Range")
        || str_eq(s, "RcwnPerfStats")
        || str_eq(s, "RcwnStatus")
        || str_eq(s, "ReadableByteStreamController")
        || str_eq(s, "ReadableStream")
        || str_eq(s, "ReadableStreamByobReader")
        || str_eq(s, "ReadableStreamByobRequest")
        || str_eq(s, "ReadableStreamDefaultController")
        || str_eq(s, "ReadableStreamDefaultReader")
        || str_eq(s, "ReadableStreamGetReaderOptions")
        || str_eq(s, "ReadableStreamIteratorOptions")
        || str_eq(s, "ReadableStreamReadResult")
        || str_eq(s, "ReadableWritablePair")
        || str_eq(s, "RegisterRequest")
        || str_eq(s, "RegisterResponse")
        || str_eq(s, "RegisteredKey")
        || str_eq(s, "RegistrationOptions")
        || str_eq(s, "Request")
        || str_eq(s, "RequestDeviceOptions")
        || str_eq(s, "RequestInit")
        || str_eq(s, "RequestMediaKeySystemAccessNotification")
        || str_eq(s, "ResizeObserver")
        || str_eq(s, "ResizeObserverEntry")
        || str_eq(s, "ResizeObserverOptions")
        || str_eq(s, "ResizeObserverSize")
        || str_eq(s, "Response")
        || str_eq(s, "ResponseInit")
        || str_eq(s, "RsaHashedImportParams")
        || str_eq(s, "RsaOaepParams")
        || str_eq(s, "RsaOtherPrimesInfo")
        || str_eq(s, "RsaPssParams")
        || str_eq(s, "RtcAnswerOptions")
        || str_eq(s, "RtcCertificate")
        || str_eq(s, "RtcCertificateExpiration")
        || str_eq(s, "RtcCodecStats")
        || str_eq(s, "RtcConfiguration")
        || str_eq(s, "RtcDataChannel")
        || str_eq(s, "RtcDataChannelEvent")
        || str_eq(s, "RtcDataChannelEventInit")
        || str_eq(s, "RtcDataChannelInit")
        || str_eq(s, "RtcFecParameters")
        || str_eq(s, "RtcIceCandidate")
        || str_eq(s, "RtcIceCandidateInit")
        || str_eq(s, "RtcIceCandidatePairStats")
        || str_eq(s, "RtcIceCandidateStats")
        || str_eq(s, "RtcIceComponentStats")
        || str_eq(s, "RtcIceServer")
        || str_eq(s, "RtcIdentityAssertion")
        || str_eq(s, "RtcIdentityAssertionResult")
        || str_eq(s, "RtcIdentityProvider")
        || str_eq(s, "RtcIdentityProviderDetails")
        || str_eq(s, "RtcIdentityProviderOptions")
        || str_eq(s, "RtcIdentityProviderRegistrar")
        || str_eq(s, "RtcIdentityValidationResult")
        || str_eq(s, "RtcInboundRtpStreamStats")
        || str_eq(s, "RtcMediaStreamStats")
        || str_eq(s, "RtcMediaStreamTrackStats")
        || str_eq(s, "RtcOfferAnswerOptions")
        || str_eq(s, "RtcOfferOptions")
        || str_eq(s, "RtcOutboundRtpStreamStats")
        || str_eq(s, "RtcPeerConnection")
        || str_eq(s, "RtcPeerConnectionIceEvent")
        || str_eq(s, "RtcPeerConnectionIceEventInit")
        || str_eq(s, "RtcRtcpParameters")
        || str_eq(s, "RtcRtpCodecParameters")
        || str_eq(s, "RtcRtpContributingSource")
        || str_eq(s, "RtcRtpEncodingParameters")
}

pub open spec fn known_web_11(s: Seq<char>) -> bool {
    ||| s == "RtcRtpHeaderExtensionParameters"@
    ||| s == "RtcRtpParameters"@
    ||| s == "RtcRtpReceiver"@
    ||| s == "RtcRtpSender"@
    ||| s == "RtcRtpSourceEntry"@
    ||| s == "RtcRtpSynchronizationSource"@
    ||| s == "RtcRtpTransceiver"@
    ||| s == "RtcRtpTransceiverInit"@
    ||| s == "RtcRtxParameters"@
    ||| s == "RtcSessionDescription"@
    ||| s == "RtcSessionDescriptionInit"@
    ||| s == "RtcStats"@
    ||| s == "RtcStatsReport"@
    ||| s == "RtcStatsReportInternal"@
    ||| s == "RtcTrackEvent"@
    ||| s == "RtcTrackEventInit"@
    ||| s == "RtcTransportStats"@
    ||| s == "RtcdtmfSender"@
    ||| s == "RtcdtmfToneChangeEvent"@
    ||| s == "RtcdtmfToneChangeEventInit"@
    ||| s == "RtcrtpContributingSourceStats"@
    ||| s == "RtcrtpStreamStats"@
    ||| s == "Screen"@
    ||| s == "ScreenLuminance"@
    ||| s == "ScreenOrientation"@
    ||| s == "ScriptProcessorNode"@
    ||| s == "ScrollAreaEvent"@
    ||| s == "ScrollBoxObject"@
    ||| s == "ScrollIntoViewOptions"@
    ||| s == "ScrollOptions"@
    ||| s == "ScrollToOptions"@
    ||| s == "ScrollViewChangeEventInit"@
    ||| s == "SecurityPolicyViolationEvent"@
    ||| s == "SecurityPolicyViolationEventInit"@
    ||| s == "Selection"@
    ||| s == "ServerSocketOptions"@
    ||| s == "ServiceWorker"@
    ||| s == "ServiceWorkerContainer"@
    ||| s == "ServiceWorkerGlobalScope"@
    ||| s == "ServiceWorkerRegistration"@
    ||| s == "ShadowRoot"@
    ||| s == "ShadowRootInit"@
    ||| s == "ShareData"@
    ||| s == "SharedWorker"@
    ||| s == "SharedWorkerGlobalScope"@
    ||| s == "SignResponse"@
    ||| s == "SocketElement"@
    ||| s == "SocketOptions"@
    ||| s == "SocketsDict"@
    ||| s == "SourceBuffer"@
    ||| s == "SourceBufferList"@
    ||| s == "SpeechGrammar"@
    ||| s == "SpeechGrammarList"@
    ||| s == "SpeechRecognition"@
    ||| s == "SpeechRecognitionAlternative"@
    ||| s == "SpeechRecognitionError"@
    ||| s == "SpeechRecognitionErrorInit"@
    ||| s == "SpeechRecognitionEvent"@
    ||| s == "SpeechRecognitionEventInit"@
    ||| s == "SpeechRecognitionResult"@
    ||| s == "SpeechRecognitionResultList"@
    ||| s == "SpeechSynthesis"@
    ||| s == "SpeechSynthesisErrorEvent"@
    ||| s == "SpeechSynthesisErrorEventInit"@
    ||| s == "SpeechSynthesisEvent"@
    ||| s == "SpeechSynthesisEventInit"@
    ||| s == "SpeechSynthesisUtterance"@
    ||| s == "SpeechSynthesisVoice"@
    ||| s == "StereoPannerNode"@
    ||| s == "StereoPannerOptions"@
    ||| s == "Storage"@
    ||| s == "StorageEstimate"@
    ||| s == "StorageEvent"@
    ||| s == "StorageEventInit"@
    ||| s == "StorageManager"@
    ||| s == "StreamPipeOptions"@
    ||| s == "StyleRuleChangeEventInit"@
    ||| s == "StyleSheet"@
    ||| s == "StyleSheetApplicableStateChangeEventInit"@
    ||| s == "StyleSheetChangeEventInit"@
}

fn ex_known_web_11(s: &str) -> (r: bool)
    ensures
        r == known_web_11(s@),
{
    str_eq(s, "RtcRtpHeaderExtensionParameters")
        || str_eq(s, "RtcRtpParameters")
        || str_eq(s, "RtcRtpReceiver")
        || str_eq(s, "RtcRtpSender")
        || str_eq(s, "RtcRtpSourceEntry")
        || str_eq(s, "RtcRtpSynchronizationSource")
        || str_eq(s, "RtcRtpTransceiver")
        || str_eq(s, "RtcRtpTransceiverInit")
        || str_eq(s, "RtcRtxParameters")
        || str_eq(s, "RtcSessionDescription")
        || str_eq(s, "RtcSessionDescriptionInit")
        || str_eq(s, "RtcStats")
        || str_eq(s, "RtcStatsReport")
        || str_eq(s, "RtcStatsReportInternal")
        || str_eq(s, "RtcTrackEvent")
        || str_eq(s, "RtcTrackEventInit")
        || str_eq(s, "RtcTransportStats")
        || str_eq(s, "RtcdtmfSender")
        || str_eq(s, "RtcdtmfToneChangeEvent")
        || str_eq(s, "RtcdtmfToneChangeEventInit")
        || str_eq(s, "RtcrtpContributingSourceStats")
        || str_eq(s, "RtcrtpStreamStats")
        || str_eq(s, "Screen")
        || str_eq(s, "ScreenLuminance")
        || str_eq(s, "ScreenOrientation")
        || str_eq(s, "ScriptProcessorNode")
        || str_eq(s, "ScrollAreaEvent")
        || str_eq(s, "ScrollBoxObject")
        || str_eq(s, "ScrollIntoViewOptions")
        || str_eq(s, "ScrollOptions")
        || str_eq(s, "ScrollToOptions")
        || str_eq(s, "ScrollViewChangeEventInit")
        || str_eq(s, "SecurityPolicyViolationEvent")
        || str_eq(s, "SecurityPolicyViolationEventInit")
        || str_eq(s, "Selection")
        || str_eq(s, "ServerSocketOptions")
        || str_eq(s, "ServiceWorker")
        || str_eq(s, "ServiceWorkerContainer")
        || str_eq(s, "ServiceWorkerGlobalScope")
        || str_eq(s, "ServiceWorkerRegistration")
        || str_eq(s, "ShadowRoot")
        || str_eq(s, "ShadowRootInit")
        || str_eq(s, "ShareData")
        || str_eq(s, "SharedWorker")
        || str_eq(s, "SharedWorkerGlobalScope")
        || str_eq(s, "SignResponse")
        || str_eq(s, "SocketElement")
        || str_eq(s, "SocketOptions")
        || str_eq(s, "SocketsDict")
        || str_eq(s, "SourceBuffer")
        || str_eq(s, "SourceBufferList")
        || str_eq(s, "SpeechGrammar")
        || str_eq(s, "SpeechGrammarList")
        || str_eq(s, "SpeechRecognition")
        || str_eq(s, "SpeechRecognitionAlternative")
        || str_eq(s, "SpeechRecognitionError")
        || str_eq(s, "SpeechRecognitionErrorInit")
        || str_eq(s, "SpeechRecognitionEvent")
        || str_eq(s, "SpeechRecognitionEventInit")
        || str_eq(s, "SpeechRecognitionResult")
        || str_eq(s, "SpeechRecognitionResultList")
        || str_eq(s, "SpeechSynthesis")
        || str_eq(s, "SpeechSynthesisErrorEvent")
        || str_eq(s, "SpeechSynthesisErrorEventInit")
        || str_eq(s, "SpeechSynthesisEvent")
        || str_eq(s, "SpeechSynthesisEventInit")
        || str_eq(s, "SpeechSynthesisUtterance")
        || str_eq(s, "SpeechSynthesisVoice")
        || str_eq(s, "StereoPannerNode")
        || str_eq(s, "StereoPannerOptions")
        || str_eq(s, "Storage")
        || str_eq(s, "StorageEstimate")
        || str_eq(s, "StorageEvent")
        || str_eq(s, "StorageEventInit")
        || str_eq(s, "StorageManager")
        || str_eq(s, "StreamPipeOptions")
        || str_eq(s, "StyleRuleChangeEventInit")
        || str_eq(s, "StyleSheet")
        || str_eq(s, "StyleSheetApplicableStateChangeEventInit")
        || str_eq(s, "StyleSheetChangeEventInit")
}

pub open spec fn known_web_12(s: Seq<char>) -> bool {
    ||| s == "StyleSheetList"@
    ||| s == "SubmitEvent"@
    ||| s == "SubmitEventInit"@
    ||| s == "SubtleCrypto"@
    ||| s == "SvcOutputMetadata"@
    ||| s == "SvgAngle"@
    ||| s == "SvgAnimateElement"@
    ||| s == "SvgAnimateMotionElement"@
    ||| s == "SvgAnimateTransformElement"@
    ||| s == "SvgAnimatedAngle"@
    ||| s == "SvgAnimatedBoolean"@
    ||| s == "SvgAnimatedEnumeration"@
    ||| s == "SvgAnimatedInteger"@
    ||| s == "SvgAnimatedLength"@
    ||| s == "SvgAnimatedLengthList"@
    ||| s == "SvgAnimatedNumber"@
    ||| s == "SvgAnimatedNumberList"@
    ||| s == "SvgAnimatedPreserveAspectRatio"@
    ||| s == "SvgAnimatedRect"@
    ||| s == "SvgAnimatedString"@
    ||| s == "SvgAnimatedTransformList"@
    ||| s == "SvgAnimationElement"@
    ||| s == "SvgBoundingBoxOptions"@
    ||| s == "SvgCircleElement"@
    ||| s == "SvgClipPathElement"@
    ||| s == "SvgComponentTransferFunctionElement"@
    ||| s == "SvgDefsElement"@
    ||| s == "SvgDescElement"@
    ||| s == "SvgElement"@
    ||| s == "SvgEllipseElement"@
    ||| s == "SvgFilterElement"@
    ||| s == "SvgForeignObjectElement"@
    ||| s == "SvgGeometryElement"@
    ||| s == "SvgGradientElement"@
    ||| s == "SvgGraphicsElement"@
    ||| s == "SvgImageElement"@
    ||| s == "SvgLength"@
    ||| s == "SvgLengthList"@
    ||| s == "SvgLineElement"@
    ||| s == "SvgLinearGradientElement"@
    ||| s == "SvgMarkerElement"@
    ||| s == "SvgMaskElement"@
    ||| s == "SvgMatrix"@
    ||| s == "SvgMetadataElement"@
    ||| s == "SvgNumber"@
    ||| s == "SvgNumberList"@
    ||| s == "SvgPathElement"@
    ||| s == "SvgPathSeg"@
    ||| s == "SvgPathSegArcAbs"@
    ||| s == "SvgPathSegArcRel"@
    ||| s == "SvgPathSegClosePath"@
    ||| s == "SvgPathSegCurvetoCubicAbs"@
    ||| s == "SvgPathSegCurvetoCubicRel"@
    ||| s == "SvgPathSegCurvetoCubicSmoothAbs"@
    ||| s == "SvgPathSegCurvetoCubicSmoothRel"@
    ||| s == "SvgPathSegCurvetoQuadraticAbs"@
    ||| s == "SvgPathSegCurvetoQuadraticRel"@
    ||| s == "SvgPathSegCurvetoQuadraticSmoothAbs"@
    ||| s == "SvgPathSegCurvetoQuadraticSmoothRel"@
    ||| s == "SvgPathSegLinetoAbs"@
    ||| s == "SvgPathSegLinetoHorizontalAbs"@
    ||| s == "SvgPathSegLinetoHorizontalRel"@
    ||| s == "SvgPathSegLinetoRel"@
    ||| s == "SvgPathSegLinetoVerticalAbs"@
    ||| s == "SvgPathSegLinetoVerticalRel"@
    ||| s == "SvgPathSegList"@
    ||| s == "SvgPathSegMovetoAbs"@
    ||| s == "SvgPathSegMovetoRel"@
    ||| s == "SvgPatternElement"@
    ||| s == "SvgPoint"@
    ||| s == "SvgPointList"@
    ||| s == "SvgPolygonElement"@
    ||| s == "SvgPolylineElement"@
    ||| s == "SvgPreserveAspectRatio"@
    ||| s == "SvgRadialGradientElement"@
    ||| s == "SvgRect"@
    ||| s == "SvgRectElement"@
    ||| s == "SvgScriptElement"@
    ||| s == "SvgSetElement"@
    ||| s == "SvgStopElement"@
}

fn ex_known_web_12(s: &str) -> (r: bool)
    ensures
        r == known_web_12(s@),
{
    str_eq(s, "StyleSheetList")
        || str_eq(s, "SubmitEvent")
        || str_eq(s, "SubmitEventInit")
        || str_eq(s, "SubtleCrypto")
        || str_eq(s, "SvcOutputMetadata")
        || str_eq(s, "SvgAngle")
        || str_eq(s, "SvgAnimateElement")
        || str_eq(s, "SvgAnimateMotionElement")
        || str_eq(s, "SvgAnimateTransformElement")
        || str_eq(s, "SvgAnimatedAngle")
        || str_eq(s, "SvgAnimatedBoolean")
        || str_eq(s, "SvgAnimatedEnumeration")
        || str_eq(s, "SvgAnimatedInteger")
        || str_eq(s, "SvgAnimatedLength")
        || str_eq(s, "SvgAnimatedLengthList")
        || str_eq(s, "SvgAnimatedNumber")
        || str_eq(s, "SvgAnimatedNumberList")
        || str_eq(s, "SvgAnimatedPreserveAspectRatio")
        || str_eq(s, "SvgAnimatedRect")
        || str_eq(s, "SvgAnimatedString")
        || str_eq(s, "SvgAnimatedTransformList")
        || str_eq(s, "SvgAnimationElement")
        || str_eq(s, "SvgBoundingBoxOptions")
        || str_eq(s, "SvgCircleElement")
        || str_eq(s, "SvgClipPathElement")
        || str_eq(s, "SvgComponentTransferFunctionElement")
        || str_eq(s, "SvgDefsElement")
        || str_eq(s, "SvgDescElement")
        || str_eq(s, "SvgElement")
        || str_eq(s, "SvgEllipseElement")
        || str_eq(s, "SvgFilterElement")
        || str_eq(s, "SvgForeignObjectElement")
        || str_eq(s, "SvgGeometryElement")
        || str_eq(s, "SvgGradientElement")
        || str_eq(s, "SvgGraphicsElement")
        || str_eq(s, "SvgImageElement")
        || str_eq(s, "SvgLength")
        || str_eq(s, "SvgLengthList")
        || str_eq(s, "SvgLineElement")
        || str_eq(s, "SvgLinearGradientElement")
        || str_eq(s, "SvgMarkerElement")
        || str_eq(s, "SvgMaskElement")
        || str_eq(s, "SvgMatrix")
        || str_eq(s, "SvgMetadataElement")
        || str_eq(s, "SvgNumber")
        || str_eq(s, "SvgNumberList")
        || str_eq(s, "SvgPathElement")
        || str_eq(s, "SvgPathSeg")
        || str_eq(s, "SvgPathSegArcAbs")
        || str_eq(s, "SvgPathSegArcRel")
        || str_eq(s, "SvgPathSegClosePath")
        || str_eq(s, "SvgPathSegCurvetoCubicAbs")
        || str_eq(s, "SvgPathSegCurvetoCubicRel")
        || str_eq(s, "SvgPathSegCurvetoCubicSmoothAbs")
        || str_eq(s, "SvgPathSegCurvetoCubicSmoothRel")
        || str_eq(s, "SvgPathSegCurvetoQuadraticAbs")
        || str_eq(s, "SvgPathSegCurvetoQuadraticRel")
        || str_eq(s, "SvgPathSegCurvetoQuadraticSmoothAbs")
        || str_eq(s, "SvgPathSegCurvetoQuadraticSmoothRel")
        || str_eq(s, "SvgPathSegLinetoAbs")
        || str_eq(s, "SvgPathSegLinetoHorizontalAbs")
        || str_eq(s, "SvgPathSegLinetoHorizontalRel")
        || str_eq(s, "SvgPathSegLinetoRel")
        || str_eq(s, "SvgPathSegLinetoVerticalAbs")
        || str_eq(s, "SvgPathSegLinetoVerticalRel")
        || str_eq(s, "SvgPathSegList")
        || str_eq(s, "SvgPathSegMovetoAbs")
        || str_eq(s, "SvgPathSegMovetoRel")
        || str_eq(s, "SvgPatternElement")
        || str_eq(s, "SvgPoint")
        || str_eq(s, "SvgPointList")
        || str_eq(s, "SvgPolygonElement")
        || str_eq(s, "SvgPolylineElement")
        || str_eq(s, "SvgPreserveAspectRatio")
        || str_eq(s, "SvgRadialGradientElement")
        || str_eq(s, "SvgRect")
        || str_eq(s, "SvgRectElement")
        || str_eq(s, "SvgScriptElement")
        || str_eq(s, "SvgSetElement")
        || str_eq(s, "SvgStopElement")
}

pub open spec fn known_web_13(s: Seq<char>) -> bool {
    ||| s == "SvgStringList"@
    ||| s == "SvgStyleElement"@
    ||| s == "SvgSwitchElement"@
    ||| s == "SvgSymbolElement"@
    ||| s == "SvgTextContentElement"@
    ||| s == "SvgTextElement"@
    ||| s == "SvgTextPathElement"@
    ||| s == "SvgTextPositioningElement"@
    ||| s == "SvgTitleElement"@
    ||| s == "SvgTransform"@
    ||| s == "SvgTransformList"@
    ||| s == "SvgUnitTypes"@
    ||| s == "SvgUseElement"@
    ||| s == "SvgViewElement"@
    ||| s == "SvgZoomAndPan"@
    ||| s == "SvgaElement"@
    ||| s == "SvgfeBlendElement"@
    ||| s == "SvgfeColorMatrixElement"@
    ||| s == "SvgfeComponentTransferElement"@
    ||| s == "SvgfeCompositeElement"@
    ||| s == "SvgfeConvolveMatrixElement"@
    ||| s == "SvgfeDiffuseLightingElement"@
    ||| s == "SvgfeDisplacementMapElement"@
    ||| s == "SvgfeDistantLightElement"@
    ||| s == "SvgfeDropShadowElement"@
    ||| s == "SvgfeFloodElement"@
    ||| s == "SvgfeFuncAElement"@
    ||| s == "SvgfeFuncBElement"@
    ||| s == "SvgfeFuncGElement"@
    ||| s == "SvgfeFuncRElement"@
    ||| s == "SvgfeGaussianBlurElement"@
    ||| s == "SvgfeImageElement"@
    ||| s == "SvgfeMergeElement"@
    ||| s == "SvgfeMergeNodeElement"@
    ||| s == "SvgfeMorphologyElement"@
    ||| s == "SvgfeOffsetElement"@
    ||| s == "SvgfePointLightElement"@
    ||| s == "SvgfeSpecularLightingElement"@
    ||| s == "SvgfeSpotLightElement"@
    ||| s == "SvgfeTileElement"@
    ||| s == "SvgfeTurbulenceElement"@
    ||| s == "SvggElement"@
    ||| s == "SvgmPathElement"@
    ||| s == "SvgsvgElement"@
    ||| s == "SvgtSpanElement"@
    ||| s == "TcpServerSocket"@
    ||| s == "TcpServerSocketEvent"@
    ||| s == "TcpServerSocketEventInit"@
    ||| s == "TcpSocket"@
    ||| s == "TcpSocketErrorEvent"@
    ||| s == "TcpSocketErrorEventInit"@
    ||| s == "TcpSocketEvent"@
    ||| s == "TcpSocketEventInit"@
    ||| s == "Text"@
    ||| s == "TextDecodeOptions"@
    ||| s == "TextDecoder"@
    ||| s == "TextDecoderOptions"@
    ||| s == "TextEncoder"@
    ||| s == "TextMetrics"@
    ||| s == "TextTrack"@
    ||| s == "TextTrackCue"@
    ||| s == "TextTrackCueList"@
    ||| s == "TextTrackList"@
    ||| s == "TimeEvent"@
    ||| s == "TimeRanges"@
    ||| s == "Touch"@
    ||| s == "TouchEvent"@
    ||| s == "TouchEventInit"@
    ||| s == "TouchInit"@
    ||| s == "TouchList"@
    ||| s == "TrackEvent"@
    ||| s == "TrackEventInit"@
    ||| s == "TransformStream"@
    ||| s == "TransformStreamDefaultController"@
    ||| s == "Transformer"@
    ||| s == "TransitionEvent"@
    ||| s == "TransitionEventInit"@
    ||| s == "TreeBoxObject"@
    ||| s == "TreeCellInfo"@
    ||| s == "TreeView"@
}

fn ex_known_web_13(s: &str) -> (r: bool)
    ensures
        r == known_web_13(s@),
{
    str_eq(s, "SvgStringList")
        || str_eq(s, "SvgStyleElement")
        || str_eq(s, "SvgSwitchElement")
        || str_eq(s, "SvgSymbolElement")
        || str_eq(s, "SvgTextContentElement")
        || str_eq(s, "SvgTextElement")
        || str_eq(s, "SvgTextPathElement")
        || str_eq(s, "SvgTextPositioningElement")
        || str_eq(s, "SvgTitleElement")
        || str_eq(s, "SvgTransform")
        || str_eq(s, "SvgTransformList")
        || str_eq(s, "SvgUnitTypes")
        || str_eq(s, "SvgUseElement")
        || str_eq(s, "SvgViewElement")
        || str_eq(s, "SvgZoomAndPan")
        || str_eq(s, "SvgaElement")
        || str_eq(s, "SvgfeBlendElement")
        || str_eq(s, "SvgfeColorMatrixElement")
        || str_eq(s, "SvgfeComponentTransferElement")
        || str_eq(s, "SvgfeCompositeElement")
        || str_eq(s, "SvgfeConvolveMatrixElement")
        || str_eq(s, "SvgfeDiffuseLightingElement")
        || str_eq(s, "SvgfeDisplacementMapElement")
        || str_eq(s, "SvgfeDistantLightElement")
        || str_eq(s, "SvgfeDropShadowElement")
        || str_eq(s, "SvgfeFloodElement")
        || str_eq(s, "SvgfeFuncAElement")
        || str_eq(s, "SvgfeFuncBElement")
        || str_eq(s, "SvgfeFuncGElement")
        || str_eq(s, "SvgfeFuncRElement")
        || str_eq(s, "SvgfeGaussianBlurElement")
        || str_eq(s, "SvgfeImageElement")
        || str_eq(s, "SvgfeMergeElement")
        || str_eq(s, "SvgfeMergeNodeElement")
        || str_eq(s, "SvgfeMorphologyElement")
        || str_eq(s, "SvgfeOffsetElement")
        || str_eq(s, "SvgfePointLightElement")
        || str_eq(s, "SvgfeSpecularLightingElement")
        || str_eq(s, "SvgfeSpotLightElement")
        || str_eq(s, "SvgfeTileElement")
        || str_eq(s, "SvgfeTurbulenceElement")
        || str_eq(s, "SvggElement")
        || str_eq(s, "SvgmPathElement")
        || str_eq(s, "SvgsvgElement")
        || str_eq(s, "SvgtSpanElement")
        || str_eq(s, "TcpServerSocket")
        || str_eq(s, "TcpServerSocketEvent")
        || str_eq(s, "TcpServerSocketEventInit")
        || str_eq(s, "TcpSocket")
        || str_eq(s, "TcpSocketErrorEvent")
        || str_eq(s, "TcpSocketErrorEventInit")
        || str_eq(s, "TcpSocketEvent")
        || str_eq(s, "TcpSocketEventInit")
        || str_eq(s, "Text")
        || str_eq(s, "TextDecodeOptions")
        || str_eq(s, "TextDecoder")
        || str_eq(s, "TextDecoderOptions")
        || str_eq(s, "TextEncoder")
        || str_eq(s, "TextMetrics")
        || str_eq(s, "TextTrack")
        || str_eq(s, "TextTrackCue")
        || str_eq(s, "TextTrackCueList")
        || str_eq(s, "TextTrackList")
        || str_eq(s, "TimeEvent")
        || str_eq(s, "TimeRanges")
        || str_eq(s, "Touch")
        || str_eq(s, "TouchEvent")
        || str_eq(s, "TouchEventInit")
        || str_eq(s, "TouchInit")
        || str_eq(s, "TouchList")
        || str_eq(s, "TrackEvent")
        || str_eq(s, "TrackEventInit")
        || str_eq(s, "TransformStream")
        || str_eq(s, "TransformStreamDefaultController")
        || str_eq(s, "Transformer")
        || str_eq(s, "TransitionEvent")
        || str_eq(s, "TransitionEventInit")
        || str_eq(s, "TreeBoxObject")
        || str_eq(s, "TreeCellInfo")
        || str_eq(s, "TreeView")
}

pub open spec fn known_web_14(s: Seq<char>) -> bool {
    ||| s == "TreeWalker"@
    ||| s == "U2f"@
    ||| s == "U2fClientData"@
    ||| s == "UdpMessageEventInit"@
    ||| s == "UdpOptions"@
    ||| s == "UiEvent"@
    ||| s == "UiEventInit"@
    ||| s == "UnderlyingSink"@
    ||| s == "UnderlyingSource"@
    ||| s == "Url"@
    ||| s == "UrlSearchParams"@
    ||| s == "Usb"@
    ||| s == "UsbAlternateInterface"@
    ||| s == "UsbConfiguration"@
    ||| s == "UsbConnectionEvent"@
    ||| s == "UsbConnectionEventInit"@
    ||| s == "UsbControlTransferParameters"@
    ||| s == "UsbDevice"@
    ||| s == "UsbDeviceFilter"@
    ||| s == "UsbDeviceRequestOptions"@
    ||| s == "UsbEndpoint"@
    ||| s == "UsbInTransferResult"@
    ||| s == "UsbInterface"@
    ||| s == "UsbIsochronousInTransferPacket"@
    ||| s == "UsbIsochronousInTransferResult"@
    ||| s == "UsbIsochronousOutTransferPacket"@
    ||| s == "UsbIsochronousOutTransferResult"@
    ||| s == "UsbOutTransferResult"@
    ||| s == "UsbPermissionDescriptor"@
    ||| s == "UsbPermissionResult"@
    ||| s == "UsbPermissionStorage"@
    ||| s == "UserProximityEvent"@
    ||| s == "UserProximityEventInit"@
    ||| s == "ValidityState"@
    ||| s == "ValueEvent"@
    ||| s == "ValueEventInit"@
    ||| s == "VideoColorSpace"@
    ||| s == "VideoColorSpaceInit"@
    ||| s == "VideoConfiguration"@
    ||| s == "VideoDecoder"@
    ||| s == "VideoDecoderConfig"@
    ||| s == "VideoDecoderInit"@
    ||| s == "VideoDecoderSupport"@
    ||| s == "VideoEncoder"@
    ||| s == "VideoEncoderConfig"@
    ||| s == "VideoEncoderEncodeOptions"@
    ||| s == "VideoEncoderInit"@
    ||| s == "VideoEncoderSupport"@
    ||| s == "VideoFrame"@
    ||| s == "VideoFrameBufferInit"@
    ||| s == "VideoFrameCopyToOptions"@
    ||| s == "VideoFrameInit"@
    ||| s == "VideoPlaybackQuality"@
    ||| s == "VideoStreamTrack"@
    ||| s == "VideoTrack"@
    ||| s == "VideoTrackList"@
    ||| s == "VoidCallback"@
    ||| s == "VrDisplay"@
    ||| s == "VrDisplayCapabilities"@
    ||| s == "VrEyeParameters"@
    ||| s == "VrFieldOfView"@
    ||| s == "VrFrameData"@
    ||| s == "VrLayer"@
    ||| s == "VrMockController"@
    ||| s == "VrMockDisplay"@
    ||| s == "VrPose"@
    ||| s == "VrServiceTest"@
    ||| s == "VrStageParameters"@
    ||| s == "VrSubmitFrameResult"@
    ||| s == "VttCue"@
    ||| s == "VttRegion"@
    ||| s == "WakeLock"@
    ||| s == "WakeLockSentinel"@
    ||| s == "WatchAdvertisementsOptions"@
    ||| s == "WaveShaperNode"@
    ||| s == "WaveShaperOptions"@
    ||| s == "WebGl2RenderingContext"@
    ||| s == "WebGlActiveInfo"@
    ||| s == "WebGlBuffer"@
    ||| s == "WebGlContextAttributes"@
}

fn ex_known_web_14(s: &str) -> (r: bool)
    ensures
        r == known_web_14(s@),
{
    str_eq(s, "TreeWalker")
        || str_eq(s, "U2f")
        || str_eq(s, "U2fClientData")
        || str_eq(s, "UdpMessageEventInit")
        || str_eq(s, "UdpOptions")
        || str_eq(s, "UiEvent")
        || str_eq(s, "UiEventInit")
        || str_eq(s, "UnderlyingSink")
        || str_eq(s, "UnderlyingSource")
        || str_eq(s, "Url")
        || str_eq(s, "UrlSearchParams")
        || str_eq(s, "Usb")
        || str_eq(s, "UsbAlternateInterface")
        || str_eq(s, "UsbConfiguration")
        || str_eq(s, "UsbConnectionEvent")
        || str_eq(s, "UsbConnectionEventInit")
        || str_eq(s, "UsbControlTransferParameters")
        || str_eq(s, "UsbDevice")
        || str_eq(s, "UsbDeviceFilter")
        || str_eq(s, "UsbDeviceRequestOptions")
        || str_eq(s, "UsbEndpoint")
        || str_eq(s, "UsbInTransferResult")
        || str_eq(s, "UsbInterface")
        || str_eq(s, "UsbIsochronousInTransferPacket")
        || str_eq(s, "UsbIsochronousInTransferResult")
        || str_eq(s, "UsbIsochronousOutTransferPacket")
        || str_eq(s, "UsbIsochronousOutTransferResult")
        || str_eq(s, "UsbOutTransferResult")
        || str_eq(s, "UsbPermissionDescriptor")
        || str_eq(s, "UsbPermissionResult")
        || str_eq(s, "UsbPermissionStorage")
        || str_eq(s, "UserProximityEvent")
        || str_eq(s, "UserProximityEventInit")
        || str_eq(s, "ValidityState")
        || str_eq(s, "ValueEvent")
        || str_eq(s, "ValueEventInit")
        || str_eq(s, "VideoColorSpace")
        || str_eq(s, "VideoColorSpaceInit")
        || str_eq(s, "VideoConfiguration")
        || str_eq(s, "VideoDecoder")
        || str_eq(s, "VideoDecoderConfig")
        || str_eq(s, "VideoDecoderInit")
        || str_eq(s, "VideoDecoderSupport")
        || str_eq(s, "VideoEncoder")
        || str_eq(s, "VideoEncoderConfig")
        || str_eq(s, "VideoEncoderEncodeOptions")
        || str_eq(s, "VideoEncoderInit")
        || str_eq(s, "VideoEncoderSupport")
        || str_eq(s, "VideoFrame")
        || str_eq(s, "VideoFrameBufferInit")
        || str_eq(s, "VideoFrameCopyToOptions")
        || str_eq(s, "VideoFrameInit")
        || str_eq(s, "VideoPlaybackQuality")
        || str_eq(s, "VideoStreamTrack")
        || str_eq(s, "VideoTrack")
        || str_eq(s, "VideoTrackList")
        || str_eq(s, "VoidCallback")
        || str_eq(s, "VrDisplay")
        || str_eq(s, "VrDisplayCapabilities")
        || str_eq(s, "VrEyeParameters")
        || str_eq(s, "VrFieldOfView")
        || str_eq(s, "VrFrameData")
        || str_eq(s, "VrLayer")
        || str_eq(s, "VrMockController")
        || str_eq(s, "VrMockDisplay")
        || str_eq(s, "VrPose")
        || str_eq(s, "VrServiceTest")
        || str_eq(s, "VrStageParameters")
        || str_eq(s, "VrSubmitFrameResult")
        || str_eq(s, "VttCue")
        || str_eq(s, "VttRegion")
        || str_eq(s, "WakeLock")
        || str_eq(s, "WakeLockSentinel")
        || str_eq(s, "WatchAdvertisementsOptions")
        || str_eq(s, "WaveShaperNode")
        || str_eq(s, "WaveShaperOptions")
        || str_eq(s, "WebGl2RenderingContext")
        || str_eq(s, "WebGlActiveInfo")
        || str_eq(s, "WebGlBuffer")
        || str_eq(s, "WebGlContextAttributes")
}

pub open spec fn known_web_15(s: Seq<char>) -> bool {
    ||| s == "WebGlContextEvent"@
    ||| s == "WebGlContextEventInit"@
    ||| s == "WebGlFramebuffer"@
    ||| s == "WebGlProgram"@
    ||| s == "WebGlQuery"@
    ||| s == "WebGlRenderbuffer"@
    ||| s == "WebGlRenderingContext"@
    ||| s == "WebGlSampler"@
    ||| s == "WebGlShader"@
    ||| s == "WebGlShaderPrecisionFormat"@
    ||| s == "WebGlSync"@
    ||| s == "WebGlTexture"@
    ||| s == "WebGlTransformFeedback"@
    ||| s == "WebGlUniformLocation"@
    ||| s == "WebGlVertexArrayObject"@
    ||| s == "WebKitCssMatrix"@
    ||| s == "WebSocket"@
    ||| s == "WebSocketDict"@
    ||| s == "WebSocketElement"@
    ||| s == "WebglColorBufferFloat"@
    ||| s == "WebglCompressedTextureAstc"@
    ||| s == "WebglCompressedTextureAtc"@
    ||| s == "WebglCompressedTextureEtc"@
    ||| s == "WebglCompressedTextureEtc1"@
    ||| s == "WebglCompressedTexturePvrtc"@
    ||| s == "WebglCompressedTextureS3tc"@
    ||| s == "WebglCompressedTextureS3tcSrgb"@
    ||| s == "WebglDebugRendererInfo"@
    ||| s == "WebglDebugShaders"@
    ||| s == "WebglDepthTexture"@
    ||| s == "WebglDrawBuffers"@
    ||| s == "WebglLoseContext"@
    ||| s == "WebglMultiDraw"@
    ||| s == "WebrtcGlobalStatisticsReport"@
    ||| s == "WheelEvent"@
    ||| s == "WheelEventInit"@
    ||| s == "WidevineCdmManifest"@
    ||| s == "Window"@
    ||| s == "WindowClient"@
    ||| s == "Worker"@
    ||| s == "WorkerDebuggerGlobalScope"@
    ||| s == "WorkerGlobalScope"@
    ||| s == "WorkerLocation"@
    ||| s == "WorkerNavigator"@
    ||| s == "WorkerOptions"@
    ||| s == "Worklet"@
    ||| s == "WorkletGlobalScope"@
    ||| s == "WorkletOptions"@
    ||| s == "WritableStream"@
    ||| s == "WritableStreamDefaultController"@
    ||| s == "WritableStreamDefaultWriter"@
    ||| s == "XPathExpression"@
    ||| s == "XPathNsResolver"@
    ||| s == "XPathResult"@
    ||| s == "XmlDocument"@
    ||| s == "XmlHttpRequest"@
    ||| s == "XmlHttpRequestEventTarget"@
    ||| s == "XmlHttpRequestUpload"@
    ||| s == "XmlSerializer"@
    ||| s == "XrBoundedReferenceSpace"@
    ||| s == "XrFrame"@
    ||| s == "XrInputSource"@
    ||| s == "XrInputSourceArray"@
    ||| s == "XrInputSourceEvent"@
    ||| s == "XrInputSourceEventInit"@
    ||| s == "XrInputSourcesChangeEvent"@
    ||| s == "XrInputSourcesChangeEventInit"@
    ||| s == "XrLayer"@
    ||| s == "XrPermissionDescriptor"@
    ||| s == "XrPermissionStatus"@
    ||| s == "XrPose"@
    ||| s == "XrReferenceSpace"@
    ||| s == "XrReferenceSpaceEvent"@
    ||| s == "XrReferenceSpaceEventInit"@
    ||| s == "XrRenderState"@
    ||| s == "XrRenderStateInit"@
    ||| s == "XrRigidTransform"@
    ||| s == "XrSession"@
    ||| s == "XrSessionEvent"@
    ||| s == "XrSessionEventInit"@
}

fn ex_known_web_15(s: &str) -> (r: bool)
    ensures
        r == known_web_15(s@),
{
    str_eq(s, "WebGlContextEvent")
        || str_eq(s, "WebGlContextEventInit")
        || str_eq(s, "WebGlFramebuffer")
        || str_eq(s, "WebGlProgram")
        || str_eq(s, "WebGlQuery")
        || str_eq(s, "WebGlRenderbuffer")
        || str_eq(s, "WebGlRenderingContext")
        || str_eq(s, "WebGlSampler")
        || str_eq(s, "WebGlShader")
        || str_eq(s, "WebGlShaderPrecisionFormat")
        || str_eq(s, "WebGlSync")
        || str_eq(s, "WebGlTexture")
        || str_eq(s, "WebGlTransformFeedback")
        || str_eq(s, "WebGlUniformLocation")
        || str_eq(s, "WebGlVertexArrayObject")
        || str_eq(s, "WebKitCssMatrix")
        || str_eq(s, "WebSocket")
        || str_eq(s, "WebSocketDict")
        || str_eq(s, "WebSocketElement")
        || str_eq(s, "WebglColorBufferFloat")
        || str_eq(s, "WebglCompressedTextureAstc")
        || str_eq(s, "WebglCompressedTextureAtc")
        || str_eq(s, "WebglCompressedTextureEtc")
        || str_eq(s, "WebglCompressedTextureEtc1")
        || str_eq(s, "WebglCompressedTexturePvrtc")
        || str_eq(s, "WebglCompressedTextureS3tc")
        || str_eq(s, "WebglCompressedTextureS3tcSrgb")
        || str_eq(s, "WebglDebugRendererInfo")
        || str_eq(s, "WebglDebugShaders")
        || str_eq(s, "WebglDepthTexture")
        || str_eq(s, "WebglDrawBuffers")
        || str_eq(s, "WebglLoseContext")
        || str_eq(s, "WebglMultiDraw")
        || str_eq(s, "WebrtcGlobalStatisticsReport")
        || str_eq(s, "WheelEvent")
        || str_eq(s, "WheelEventInit")
        || str_eq(s, "WidevineCdmManifest")
        || str_eq(s, "Window")
        || str_eq(s, "WindowClient")
        || str_eq(s, "Worker")
        || str_eq(s, "WorkerDebuggerGlobalScope")
        || str_eq(s, "WorkerGlobalScope")
        || str_eq(s, "WorkerLocation")
        || str_eq(s, "WorkerNavigator")
        || str_eq(s, "WorkerOptions")
        || str_eq(s, "Worklet")
        || str_eq(s, "WorkletGlobalScope")
        || str_eq(s, "WorkletOptions")
        || str_eq(s, "WritableStream")
        || str_eq(s, "WritableStreamDefaultController")
        || str_eq(s, "WritableStreamDefaultWriter")
        || str_eq(s, "XPathExpression")
        || str_eq(s, "XPathNsResolver")
        || str_eq(s, "XPathResult")
        || str_eq(s, "XmlDocument")
        || str_eq(s, "XmlHttpRequest")
        || str_eq(s, "XmlHttpRequestEventTarget")
        || str_eq(s, "XmlHttpRequestUpload")
        || str_eq(s, "XmlSerializer")
        || str_eq(s, "XrBoundedReferenceSpace")
        || str_eq(s, "XrFrame")
        || str_eq(s, "XrInputSource")
        || str_eq(s, "XrInputSourceArray")
        || str_eq(s, "XrInputSourceEvent")
        || str_eq(s, "XrInputSourceEventInit")
        || str_eq(s, "XrInputSourcesChangeEvent")
        || str_eq(s, "XrInputSourcesChangeEventInit")
        || str_eq(s, "XrLayer")
        || str_eq(s, "XrPermissionDescriptor")
        || str_eq(s, "XrPermissionStatus")
        || str_eq(s, "XrPose")
        || str_eq(s, "XrReferenceSpace")
        || str_eq(s, "XrReferenceSpaceEvent")
        || str_eq(s, "XrReferenceSpaceEventInit")
        || str_eq(s, "XrRenderState")
        || str_eq(s, "XrRenderStateInit")
        || str_eq(s, "XrRigidTransform")
        || str_eq(s, "XrSession")
        || str_eq(s, "XrSessionEvent")
        || str_eq(s, "XrSessionEventInit")
}

pub open spec fn known_web_16(s: Seq<char>) -> bool {
    ||| s == "XrSessionInit"@
    ||| s == "XrSessionSupportedPermissionDescriptor"@
    ||| s == "XrSpace"@
    ||| s == "XrSystem"@
    ||| s == "XrView"@
    ||| s == "XrViewerPose"@
    ||| s == "XrViewport"@
    ||| s == "XrWebGlLayer"@
    ||| s == "XrWebGlLayerInit"@
    ||| s == "XsltProcessor"@
}

fn ex_known_web_16(s: &str) -> (r: bool)
    ensures
        r == known_web_16(s@),
{
    str_eq(s, "XrSessionInit")
        || str_eq(s, "XrSessionSupportedPermissionDescriptor")
        || str_eq(s, "XrSpace")
        || str_eq(s, "XrSystem")
        || str_eq(s, "XrView")
        || str_eq(s, "XrViewerPose")
        || str_eq(s, "XrViewport")
        || str_eq(s, "XrWebGlLayer")
        || str_eq(s, "XrWebGlLayerInit")
        || str_eq(s, "XsltProcessor")
}

/// Names of external object types of the known host binding library for
/// the document environment.
pub open spec fn known_web_type(s: Seq<char>) -> bool {
    ||| known_web_0(s)
    ||| known_web_1(s)
    ||| known_web_2(s)
    ||| known_web_3(s)
    ||| known_web_4(s)
    ||| known_web_5(s)
    ||| known_web_6(s)
    ||| known_web_7(s)
    ||| known_web_8(s)
    ||| known_web_9(s)
    ||| known_web_10(s)
    ||| known_web_11(s)
    ||| known_web_12(s)
    ||| known_web_13(s)
    ||| known_web_14(s)
    ||| known_web_15(s)
    ||| known_web_16(s)
}

pub fn is_known_web_type(name: &str) -> (r: bool)
    ensures
        r == known_web_type(name@),
{
    ex_known_web_0(name)
        || ex_known_web_1(name)
        || ex_known_web_2(name)
        || ex_known_web_3(name)
        || ex_known_web_4(name)
        || ex_known_web_5(name)
        || ex_known_web_6(name)
        || ex_known_web_7(name)
        || ex_known_web_8(name)
        || ex_known_web_9(name)
        || ex_known_web_10(name)
        || ex_known_web_11(name)
        || ex_known_web_12(name)
        || ex_known_web_13(name)
        || ex_known_web_14(name)
        || ex_known_web_15(name)
        || ex_known_web_16(name)
}

pub open spec fn known_js_0(s: Seq<char>) -> bool {
    ||| s == "Array"@
    ||| s == "ArrayBuffer"@
    ||| s == "ArrayIter"@
    ||| s == "AsyncIterator"@
    ||| s == "BigInt"@
    ||| s == "BigInt64Array"@
    ||| s == "BigUint64Array"@
    ||| s == "Boolean"@
    ||| s == "DataView"@
    ||| s == "Date"@
    ||| s == "Error"@
    ||| s == "EvalError"@
    ||| s == "Float32Array"@
    ||| s == "Float64Array"@
    ||| s == "Function"@
    ||| s == "Generator"@
    ||| s == "Int8Array"@
    ||| s == "Int16Array"@
    ||| s == "Int32Array"@
    ||| s == "IntoIter"@
    ||| s == "Iter"@
    ||| s == "Iterator"@
    ||| s == "IteratorNext"@
    ||| s == "JsString"@
    ||| s == "Map"@
    ||| s == "Number"@
    ||| s == "Object"@
    ||| s == "Promise"@
    ||| s == "Proxy"@
    ||| s == "RangeError"@
    ||| s == "ReferenceError"@
    ||| s == "RegExp"@
    ||| s == "Set"@
    ||| s == "SharedArrayBuffer"@
    ||| s == "Symbol"@
    ||| s == "SyntaxError"@
    ||| s == "TypeError"@
    ||| s == "Uint8Array"@
    ||| s == "Uint8ClampedArray"@
    ||| s == "Uint16Array"@
    ||| s == "Uint32Array"@
    ||| s == "UriError"@
    ||| s == "WeakMap"@
    ||| s == "WeakSet"@
}

fn ex_known_js_0(s: &str) -> (r: bool)
    ensures
        r == known_js_0(s@),
{
    str_eq(s, "Array")
        || str_eq(s, "ArrayBuffer")
        || str_eq(s, "ArrayIter")
        || str_eq(s, "AsyncIterator")
        || str_eq(s, "BigInt")
        || str_eq(s, "BigInt64Array")
        || str_eq(s, "BigUint64Array")
        || str_eq(s, "Boolean")
        || str_eq(s, "DataView")
        || str_eq(s, "Date")
        || str_eq(s, "Error")
        || str_eq(s, "EvalError")
        || str_eq(s, "Float32Array")
        || str_eq(s, "Float64Array")
        || str_eq(s, "Function")
        || str_eq(s, "Generator")
        || str_eq(s, "Int8Array")
        || str_eq(s, "Int16Array")
        || str_eq(s, "Int32Array")
        || str_eq(s, "IntoIter")
        || str_eq(s, "Iter")
        || str_eq(s, "Iterator")
        || str_eq(s, "IteratorNext")
        || str_eq(s, "JsString")
        || str_eq(s, "Map")
        || str_eq(s, "Number")
        || str_eq(s, "Object")
        || str_eq(s, "Promise")
        || str_eq(s, "Proxy")
        || str_eq(s, "RangeError")
        || str_eq(s, "ReferenceError")
        || str_eq(s, "RegExp")
        || str_eq(s, "Set")
        || str_eq(s, "SharedArrayBuffer")
        || str_eq(s, "Symbol")
        || str_eq(s, "SyntaxError")
        || str_eq(s, "TypeError")
        || str_eq(s, "Uint8Array")
        || str_eq(s, "Uint8ClampedArray")
        || str_eq(s, "Uint16Array")
        || str_eq(s, "Uint32Array")
        || str_eq(s, "UriError")
        || str_eq(s, "WeakMap")
        || str_eq(s, "WeakSet")
}

/// Names of external object types of the known host binding library for
/// the base environment.
pub open spec fn known_js_type(s: Seq<char>) -> bool {
    ||| known_js_0(s)
}

pub fn is_known_js_type(name: &str) -> (r: bool)
    ensures
        r == known_js_type(name@),
{
    ex_known_js_0(name)
}

/// Whether the name belongs to any of the known-type catalogs.
pub open spec fn known_catalog_type(s: Seq<char>) -> bool {
    known_string_type(s) || known_web_type(s) || known_js_type(s)
}

pub fn is_known_catalog_type(name: &str) -> (r: bool)
    ensures
        r == known_catalog_type(name@),
{
    is_known_string_type(name) || is_known_web_type(name) || is_known_js_type(name)
}

} // verus!
