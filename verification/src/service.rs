use vstd::prelude::*;

verus! {

/// The part of the unit file before the path of the binary.
pub open spec fn unit_head() -> Seq<char> {
    "[Unit]\n      Description=Tablet Map Service for Wacom Intuos5\n\n      [Service]\n      ExecStart="@
}

/// The part of the unit file after the path of the binary.
pub open spec fn unit_tail() -> Seq<char> {
    "\n      Restart=no\n      StandardOutput=journal\n      StandardError=journal\n\n      [Install]\n      WantedBy=default.target\n    "@
}

/// The unit describes the tablet service, runs the binary with no restart and
/// its output to the journal, and is wanted by the default target.
pub proof fn lemma_unit_text()
    ensures
        unit_head() == "[Unit]\n      Description=Tablet Map Service for Wacom Intuos5\n\n      [Service]\n      ExecStart="@,
        unit_tail() == "\n      Restart=no\n      StandardOutput=journal\n      StandardError=journal\n\n      [Install]\n      WantedBy=default.target\n    "@,
{
}

/// The text of the systemd user unit that runs the binary at `bin_path`.
pub fn unit_content(bin_path: &str) -> (r: String)
    ensures
        r@ == unit_head() + bin_path@ + unit_tail(),
{
    let mut content = String::from_str(
        "[Unit]\n      Description=Tablet Map Service for Wacom Intuos5\n\n      [Service]\n      ExecStart=",
    );
    content.append(bin_path);
    content.append(
        "\n      Restart=no\n      StandardOutput=journal\n      StandardError=journal\n\n      [Install]\n      WantedBy=default.target\n    ",
    );
    content
}

/// The name of the unit file.
pub fn unit_file_name() -> (r: &'static str)
    ensures
        r@ == "tablet-map.service"@,
{
    "tablet-map.service"
}

} // verus!
