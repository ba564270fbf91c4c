//! Components whose place in the interface is fixed and whose content is not
//! written yet.

use vstd::prelude::*;

verus! {

/// The place of the search box.
#[derive(Clone, Copy, Debug, PartialEq, Eq)]
pub struct SearchBoxPlaceholder;

impl SearchBoxPlaceholder {
    /// What the component is for.
    pub fn responsibility(&self) -> (result: &'static str)
        ensures
            result@ == "收集搜索条件并触发搜索任务；当前仅保留组件边界。"@,
    {
        "收集搜索条件并触发搜索任务；当前仅保留组件边界。"
    }
}

/// The place of the split pane.
#[derive(Clone, Copy, Debug, PartialEq, Eq)]
pub struct SplitPanePlaceholder;

impl SplitPanePlaceholder {
    /// What the component is for.
    pub fn responsibility(&self) -> (result: &'static str)
        ensures
            result@ == "管理可拖拽分割布局；当前仅保留组件边界。"@,
    {
        "管理可拖拽分割布局；当前仅保留组件边界。"
    }
}

/// The place of the tree view.
#[derive(Clone, Copy, Debug, PartialEq, Eq)]
pub struct TreeViewPlaceholder;

impl TreeViewPlaceholder {
    /// What the component is for.
    pub fn responsibility(&self) -> (result: &'static str)
        ensures
            result@ == "展示来源目录树并支持懒加载；当前仅保留组件边界。"@,
    {
        "展示来源目录树并支持懒加载；当前仅保留组件边界。"
    }
}

/// The place of the virtual list.
#[derive(Clone, Copy, Debug, PartialEq, Eq)]
pub struct VirtualListPlaceholder;

impl VirtualListPlaceholder {
    /// What the component is for.
    pub fn responsibility(&self) -> (result: &'static str)
        ensures
            result@ == "按视口范围渲染日志行；当前仅保留组件边界。"@,
    {
        "按视口范围渲染日志行；当前仅保留组件边界。"
    }
}

} // verus!
