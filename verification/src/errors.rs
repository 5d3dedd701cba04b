//! Why an installer step was refused, and the message shown for it.
use vstd::prelude::*;
use crate::text::owned;

verus! {

/// A refusal of the installer. Variants that carry text hold the system's
/// own description of a failed file-system query.
#[derive(Debug, Clone, PartialEq, Eq)]
pub enum InstallError {
    /// An imported file has no real path.
    SourcePathNotReal,
    /// The installation source has no absolute path.
    SourcePathNotAbsolute,
    /// The installation source could not be queried.
    ReadSource(String),
    /// The installation source is not a regular file.
    SourceNotFile,
    /// The package kind is not one the installer handles.
    UnknownPackage,
    /// The package kind cannot be installed.
    UnsupportedKind,
    /// Extraction found nothing executable.
    NoExecutables,
    /// The installation directory is empty.
    EmptyInstallDir,
    /// The installation directory is relative.
    RelativeInstallDir,
    /// The installation directory could not be resolved.
    ReadInstallDir(String),
    /// The application to remove is not in the installation directory.
    AppNotInstalled,
    /// The application to remove resolves outside the installation
    /// directory.
    AppOutsideInstallDir,
    /// The package file has no file name.
    InvalidInstallFileName,
    /// The AppImage has no file name.
    InvalidAppImageName,
    /// The AppImage failed to unpack itself.
    AppImageExtractFailed,
    /// The AppImage unpacked without a `squashfs-root` directory.
    NoSquashfsRoot,
    /// No extraction directory was given.
    MissingPreviewRoot,
    /// No executable was chosen.
    MissingSelectedExecutable,
    /// The chosen executable lies outside the extraction directory.
    ExecutableOutsidePreview,
    /// The tar compression is not one the installer handles.
    UnsupportedTarFormat,
    /// The package kind needs no extraction.
    NothingToExtract,
    /// The extraction command failed.
    ExtractFailed,
    /// The chosen icon does not exist.
    IconMissing,
    /// The extraction directory no longer exists.
    PreviewRootMissing,
    /// The chosen icon lies outside the extraction directory.
    IconOutsidePreview,
    /// The chosen icon has no file name.
    InvalidIconFileName,
    /// The extraction directory or the executable is not absolute.
    SelectionNotAbsolute,
    /// The chosen executable could not be queried.
    ReadExecutable(String),
    /// The chosen executable lies outside the extraction directory.
    SelectionOutsidePreview,
    /// The chosen executable is not a regular file.
    SelectionNotFile,
    /// The extraction directory could not be resolved.
    ReadPreviewDir(String),
    /// A symbolic link's target could not be resolved.
    ResolveLink(String),
    /// A symbolic link of the package points outside the package.
    LinkEscapesArchive,
    /// A symbolic link's target lies outside the extraction directory.
    LinkTargetOutsidePreview,
    /// `HOME` is not set.
    NoHome,
    /// A file-system operation failed; the text is the system's description.
    Io(IoStep, String),
}

/// The file-system operation that failed.
#[derive(Clone, Copy, Debug, PartialEq, Eq, Structural)]
pub enum IoStep {
    CreatePreviewDir,
    PreviewClock,
    PrepareAppImage,
    RunAppImage,
    RunTar,
    RunUnzip,
    CreateInstallDir,
    CopyAppImage,
    ReadMode,
    SetMode,
    ReadPreviewEntry,
    ReadPreviewEntryType,
    ReadPreviewEntryInfo,
    CopyInstallFile,
    CopyPermissions,
    ReadLink,
    ReplaceCopiedLink,
    CopyLink,
    CreateIconDir,
    CopyIcon,
    CreateLauncherDir,
    WriteLauncher,
    CreateBinDir,
    ReplaceLink,
    CreateLink,
    ReadInstallDirEntry,
    ReadInstallDirEntryInfo,
    DeleteLauncher,
    DeleteLink,
    DeleteAppDir,
}

/// The words that open the message of a failed operation.
pub open spec fn io_prefix(step: IoStep) -> Seq<char> {
    match step {
        IoStep::CreatePreviewDir => "创建临时目录失败："@,
        IoStep::PreviewClock => "生成临时目录失败："@,
        IoStep::PrepareAppImage => "准备 AppImage 解包文件失败："@,
        IoStep::RunAppImage => "执行 AppImage 解包失败："@,
        IoStep::RunTar => "执行 tar 失败："@,
        IoStep::RunUnzip => "执行 unzip 失败："@,
        IoStep::CreateInstallDir => "创建安装目录失败："@,
        IoStep::CopyAppImage => "复制 AppImage 失败："@,
        IoStep::ReadMode => "读取权限失败："@,
        IoStep::SetMode => "设置执行权限失败："@,
        IoStep::ReadPreviewEntry => "读取临时目录项失败："@,
        IoStep::ReadPreviewEntryType => "读取临时目录项类型失败："@,
        IoStep::ReadPreviewEntryInfo => "读取临时目录项信息失败："@,
        IoStep::CopyInstallFile => "复制安装文件失败："@,
        IoStep::CopyPermissions => "复制文件权限失败："@,
        IoStep::ReadLink => "读取符号链接失败："@,
        IoStep::ReplaceCopiedLink => "替换符号链接失败："@,
        IoStep::CopyLink => "复制符号链接失败："@,
        IoStep::CreateIconDir => "创建图标目录失败："@,
        IoStep::CopyIcon => "复制桌面图标失败："@,
        IoStep::CreateLauncherDir => "创建桌面入口目录失败："@,
        IoStep::WriteLauncher => "写入桌面入口失败："@,
        IoStep::CreateBinDir => "创建 PATH 目录失败："@,
        IoStep::ReplaceLink => "替换已有 PATH 链接失败："@,
        IoStep::CreateLink => "创建 PATH 链接失败："@,
        IoStep::ReadInstallDirEntry => "读取安装目录项失败："@,
        IoStep::ReadInstallDirEntryInfo => "读取安装目录项信息失败："@,
        IoStep::DeleteLauncher => "删除桌面入口失败："@,
        IoStep::DeleteLink => "删除 PATH 链接失败："@,
        IoStep::DeleteAppDir => "删除应用目录失败："@,
    }
}

fn io_prefix_text(step: IoStep) -> (r: &'static str)
    ensures
        r@ == io_prefix(step),
{
    match step {
        IoStep::CreatePreviewDir => "创建临时目录失败：",
        IoStep::PreviewClock => "生成临时目录失败：",
        IoStep::PrepareAppImage => "准备 AppImage 解包文件失败：",
        IoStep::RunAppImage => "执行 AppImage 解包失败：",
        IoStep::RunTar => "执行 tar 失败：",
        IoStep::RunUnzip => "执行 unzip 失败：",
        IoStep::CreateInstallDir => "创建安装目录失败：",
        IoStep::CopyAppImage => "复制 AppImage 失败：",
        IoStep::ReadMode => "读取权限失败：",
        IoStep::SetMode => "设置执行权限失败：",
        IoStep::ReadPreviewEntry => "读取临时目录项失败：",
        IoStep::ReadPreviewEntryType => "读取临时目录项类型失败：",
        IoStep::ReadPreviewEntryInfo => "读取临时目录项信息失败：",
        IoStep::CopyInstallFile => "复制安装文件失败：",
        IoStep::CopyPermissions => "复制文件权限失败：",
        IoStep::ReadLink => "读取符号链接失败：",
        IoStep::ReplaceCopiedLink => "替换符号链接失败：",
        IoStep::CopyLink => "复制符号链接失败：",
        IoStep::CreateIconDir => "创建图标目录失败：",
        IoStep::CopyIcon => "复制桌面图标失败：",
        IoStep::CreateLauncherDir => "创建桌面入口目录失败：",
        IoStep::WriteLauncher => "写入桌面入口失败：",
        IoStep::CreateBinDir => "创建 PATH 目录失败：",
        IoStep::ReplaceLink => "替换已有 PATH 链接失败：",
        IoStep::CreateLink => "创建 PATH 链接失败：",
        IoStep::ReadInstallDirEntry => "读取安装目录项失败：",
        IoStep::ReadInstallDirEntryInfo => "读取安装目录项信息失败：",
        IoStep::DeleteLauncher => "删除桌面入口失败：",
        IoStep::DeleteLink => "删除 PATH 链接失败：",
        IoStep::DeleteAppDir => "删除应用目录失败：",
    }
}

/// The message shown for an error.
pub open spec fn error_text(e: InstallError) -> Seq<char> {
    match e {
        InstallError::SourcePathNotReal => "未获取到真实文件路径，请使用系统文件选择器导入文件"@,
        InstallError::SourcePathNotAbsolute => "未获取到真实文件路径，请在 Tauri 桌面窗口中选择文件"@,
        InstallError::ReadSource(d) => "读取安装文件失败："@ + d@,
        InstallError::SourceNotFile => "选择的路径不是文件"@,
        InstallError::UnknownPackage => "请选择 AppImage、tar.* 或 zip 安装包"@,
        InstallError::UnsupportedKind => "暂不支持该文件类型"@,
        InstallError::NoExecutables => "已完成临时解压，但未找到可执行文件"@,
        InstallError::EmptyInstallDir => "安装目录不能为空"@,
        InstallError::RelativeInstallDir => "安装目录必须是绝对路径，或使用 ~/ 开头的路径"@,
        InstallError::ReadInstallDir(d) => "读取安装目录失败："@ + d@,
        InstallError::AppNotInstalled => "该应用不在当前安装目录中"@,
        InstallError::AppOutsideInstallDir => "应用目录不在当前安装目录中，已停止卸载"@,
        InstallError::InvalidInstallFileName => "安装文件名无效"@,
        InstallError::InvalidAppImageName => "AppImage 文件名无效"@,
        InstallError::AppImageExtractFailed => "AppImage 解包失败，请确认文件有效且系统支持运行该 AppImage"@,
        InstallError::NoSquashfsRoot => "AppImage 解包完成，但未找到 squashfs-root 目录"@,
        InstallError::MissingPreviewRoot => "请先导入并确认可执行文件"@,
        InstallError::MissingSelectedExecutable => "请先选择要安装的可执行文件"@,
        InstallError::ExecutableOutsidePreview => "可执行文件不在临时解压目录中"@,
        InstallError::UnsupportedTarFormat => "暂不支持该 tar 格式"@,
        InstallError::NothingToExtract => "该类型不需要解压"@,
        InstallError::ExtractFailed => "解压命令执行失败，请确认系统已安装 tar/unzip 且压缩包有效"@,
        InstallError::IconMissing => "选择的桌面图标不存在，请重新导入或选择默认图标"@,
        InstallError::PreviewRootMissing => "临时解压目录不存在，请重新导入文件"@,
        InstallError::IconOutsidePreview => "图标文件不在临时解压目录中"@,
        InstallError::InvalidIconFileName => "选择的桌面图标文件名无效"@,
        InstallError::SelectionNotAbsolute => "临时目录和可执行文件路径必须是绝对路径"@,
        InstallError::ReadExecutable(d) => "读取可执行文件失败："@ + d@,
        InstallError::SelectionOutsidePreview => "选择的可执行文件不在临时解压目录中"@,
        InstallError::SelectionNotFile => "选择的入口不是文件"@,
        InstallError::ReadPreviewDir(d) => "读取临时目录失败："@ + d@,
        InstallError::ResolveLink(d) => "解析符号链接目标失败："@ + d@,
        InstallError::LinkEscapesArchive => "压缩包包含指向解压目录外的符号链接，已停止安装"@,
        InstallError::LinkTargetOutsidePreview => "符号链接目标不在临时解压目录中"@,
        InstallError::NoHome => "无法读取 HOME 环境变量"@,
        InstallError::Io(step, d) => io_prefix(step) + d@,
    }
}

fn prefixed(prefix: &str, detail: &String) -> (r: String)
    ensures
        r@ == prefix@ + detail@,
{
    let mut r = owned(prefix);
    r.append(detail.as_str());
    r
}

impl InstallError {
    /// The message shown for this error.
    pub fn message(&self) -> (r: String)
        ensures
            r@ == error_text(*self),
    {
        match self {
            InstallError::SourcePathNotReal => owned("未获取到真实文件路径，请使用系统文件选择器导入文件"),
            InstallError::SourcePathNotAbsolute => owned("未获取到真实文件路径，请在 Tauri 桌面窗口中选择文件"),
            InstallError::ReadSource(d) => prefixed("读取安装文件失败：", d),
            InstallError::SourceNotFile => owned("选择的路径不是文件"),
            InstallError::UnknownPackage => owned("请选择 AppImage、tar.* 或 zip 安装包"),
            InstallError::UnsupportedKind => owned("暂不支持该文件类型"),
            InstallError::NoExecutables => owned("已完成临时解压，但未找到可执行文件"),
            InstallError::EmptyInstallDir => owned("安装目录不能为空"),
            InstallError::RelativeInstallDir => owned("安装目录必须是绝对路径，或使用 ~/ 开头的路径"),
            InstallError::ReadInstallDir(d) => prefixed("读取安装目录失败：", d),
            InstallError::AppNotInstalled => owned("该应用不在当前安装目录中"),
            InstallError::AppOutsideInstallDir => owned("应用目录不在当前安装目录中，已停止卸载"),
            InstallError::InvalidInstallFileName => owned("安装文件名无效"),
            InstallError::InvalidAppImageName => owned("AppImage 文件名无效"),
            InstallError::AppImageExtractFailed => owned(
                "AppImage 解包失败，请确认文件有效且系统支持运行该 AppImage",
            ),
            InstallError::NoSquashfsRoot => owned("AppImage 解包完成，但未找到 squashfs-root 目录"),
            InstallError::MissingPreviewRoot => owned("请先导入并确认可执行文件"),
            InstallError::MissingSelectedExecutable => owned("请先选择要安装的可执行文件"),
            InstallError::ExecutableOutsidePreview => owned("可执行文件不在临时解压目录中"),
            InstallError::UnsupportedTarFormat => owned("暂不支持该 tar 格式"),
            InstallError::NothingToExtract => owned("该类型不需要解压"),
            InstallError::ExtractFailed => owned(
                "解压命令执行失败，请确认系统已安装 tar/unzip 且压缩包有效",
            ),
            InstallError::IconMissing => owned("选择的桌面图标不存在，请重新导入或选择默认图标"),
            InstallError::PreviewRootMissing => owned("临时解压目录不存在，请重新导入文件"),
            InstallError::IconOutsidePreview => owned("图标文件不在临时解压目录中"),
            InstallError::InvalidIconFileName => owned("选择的桌面图标文件名无效"),
            InstallError::SelectionNotAbsolute => owned("临时目录和可执行文件路径必须是绝对路径"),
            InstallError::ReadExecutable(d) => prefixed("读取可执行文件失败：", d),
            InstallError::SelectionOutsidePreview => owned("选择的可执行文件不在临时解压目录中"),
            InstallError::SelectionNotFile => owned("选择的入口不是文件"),
            InstallError::ReadPreviewDir(d) => prefixed("读取临时目录失败：", d),
            InstallError::ResolveLink(d) => prefixed("解析符号链接目标失败：", d),
            InstallError::LinkEscapesArchive => owned("压缩包包含指向解压目录外的符号链接，已停止安装"),
            InstallError::LinkTargetOutsidePreview => owned("符号链接目标不在临时解压目录中"),
            InstallError::NoHome => owned("无法读取 HOME 环境变量"),
            InstallError::Io(step, d) => prefixed(io_prefix_text(*step), d),
        }
    }
}

} // verus!
