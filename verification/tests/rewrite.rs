use arashi::rewrite::{find_import_specifier, process_imports, MODULE_PREFIX};

fn rewritten(text: &str) -> String {
    process_imports(text.to_string())
}

#[test]
fn bare_import_gets_the_module_prefix() {
    assert_eq!(rewritten("import x from 'left-pad';"), "import x from '/@modules/left-pad';");
}

#[test]
fn relative_import_is_left_alone() {
    assert_eq!(rewritten("import y from './local';"), "import y from './local';");
    assert_eq!(rewritten("import y from '../up/local';"), "import y from '../up/local';");
}

#[test]
fn absolute_and_url_imports_are_left_alone() {
    assert_eq!(rewritten("import a from '/src/a.js';"), "import a from '/src/a.js';");
    assert_eq!(
        rewritten("import b from \"https://cdn.example/b.js\";"),
        "import b from \"https://cdn.example/b.js\";"
    );
    assert_eq!(rewritten("import c from 'http://h/c';"), "import c from 'http://h/c';");
}

#[test]
fn package_whose_name_begins_like_a_scheme_is_bare() {
    assert_eq!(rewritten("import p from 'http-proxy';"), "import p from '/@modules/http-proxy';");
}

#[test]
fn rewriting_twice_is_rewriting_once() {
    let source = "import React from 'react';\nimport { render } from \"react-dom/client\";\nimport App from './App';\nconst x = 1;\n";
    let once = rewritten(source);
    assert_eq!(
        once,
        "import React from '/@modules/react';\nimport { render } from \"/@modules/react-dom/client\";\nimport App from './App';\nconst x = 1;\n"
    );
    assert_eq!(rewritten(&once), once);
    let first = rewritten("import x from 'left-pad';");
    assert_eq!(rewritten(&first), first);
}

#[test]
fn only_the_specifier_is_tagged() {
    assert_eq!(rewritten("import react from 'react';"), "import react from '/@modules/react';");
    assert_eq!(
        rewritten("import from_x from \"from\";"),
        "import from_x from \"/@modules/from\";"
    );
}

#[test]
fn sub_path_and_scoped_specifiers_are_tagged_whole() {
    assert_eq!(
        rewritten("import { createRoot } from 'react-dom/client'"),
        "import { createRoot } from '/@modules/react-dom/client'"
    );
    assert_eq!(
        rewritten("import core from '@babel/core';"),
        "import core from '/@modules/@babel/core';"
    );
}

#[test]
fn lines_that_are_no_import_statements_pass() {
    for line in [
        "",
        "const a = require('left-pad');",
        "  import x from 'indented';",
        "import 'side-effect';",
        "imports from 'x';",
        "export { a } from 'left-pad';",
        "import x from '';",
        "import x from'left-pad';",
        "import x from 'unterminated",
        "// import x from 'left-pad';",
        "importx from 'left-pad';",
    ] {
        assert_eq!(rewritten(line), line, "{line}");
    }
}

#[test]
fn every_line_is_rewritten_on_its_own() {
    assert_eq!(
        rewritten("import a from 'a'\r\nimport b from 'b'\r\n\r\nlet s = \"import c from 'c'\";"),
        "import a from '/@modules/a'\r\nimport b from '/@modules/b'\r\n\r\nlet s = \"import c from 'c'\";"
    );
    assert_eq!(rewritten("\n\n"), "\n\n");
    assert_eq!(rewritten("import a from\n'a'"), "import a from\n'a'");
}

#[test]
fn first_from_clause_of_a_line_decides() {
    assert_eq!(
        rewritten("import a from 'a'; import b from 'b';"),
        "import a from '/@modules/a'; import b from 'b';"
    );
    assert_eq!(
        rewritten("import { from } from 'rxjs';"),
        "import { from } from '/@modules/rxjs';"
    );
    assert_eq!(rewritten("import\tx\tfrom\t\"tabs\""), "import\tx\tfrom\t\"/@modules/tabs\"");
}

#[test]
fn text_beyond_ascii_is_kept() {
    assert_eq!(
        rewritten("import 名前 from 'パッケージ'; // コメント"),
        "import 名前 from '/@modules/パッケージ'; // コメント"
    );
}

#[test]
fn import_specifier_is_found_by_its_span() {
    let line: Vec<char> = "import x from 'left-pad';".chars().collect();
    assert_eq!(find_import_specifier(&line), Some((15, 23)));
    let none: Vec<char> = "let x = 1;".chars().collect();
    assert_eq!(find_import_specifier(&none), None);
    assert_eq!(MODULE_PREFIX, "/@modules/");
}
