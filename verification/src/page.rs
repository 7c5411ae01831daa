//! The monitor page: the full HTML for the web UI, including the
//! client-side table logic that applies the deltas a consumer receives.
//!
//! The page is one fixed text with five spots that depend on whether a
//! payload decoder is configured: the width rule and the header of the
//! decoded-content column, the client-side flag, and the page subtitle.

use vstd::prelude::*;

verus! {

/// The full page text, with or without the decoded-content column.
pub open spec fn page_html(has_decoder: bool) -> Seq<char> {

    r#"<!DOCTYPE html>
<html lang="en">
<head>
<meta charset="UTF-8">
<meta name="viewport" content="width=device-width, initial-scale=1.0">
<title>Zenoh DDS Topic Monitor</title>
<style>
    body {
        display: flex;
        flex-direction: column;
        height: 100vh;
        margin: 0;
        font-family: 'Segoe UI', Tahoma, Geneva, Verdana, sans-serif;
        background-color: #f5f7fa;
        color: #333;
    }
    .header {
        text-align: center;
        margin-bottom: 30px;
        flex-shrink: 0;
    }
    .header h1 {
        color: #2c3e50;
        margin: 0;
        font-size: 2.5rem;
        font-weight: 300;
    }
    .header p {
        color: #7f8c8d;
        margin: 10px 0 0 0;
        font-size: 1.1rem;
    }
    .stats {
        background: linear-gradient(135deg, #667eea 0%, #764ba2 100%);
        color: white;
        padding: 20px;
        border-radius: 12px;
        margin-bottom: 25px;
        box-shadow: 0 4px 15px rgba(0,0,0,0.1);
        display: flex;
        justify-content: space-between;
        align-items: center;
        flex-shrink: 0;
        gap: 12px;
    }
    .stat-item {
        /* Keep items stacked (control on top, label/value under) and centred */
        text-align: center;
        display: flex;
        flex-direction: column;
        align-items: center;
        gap: 8px;
    }
    .stat-value {
        font-size: 2rem;
        font-weight: bold;
        display: block;
    }
    .stat-label {
        font-size: 0.9rem;
        opacity: 0.9;
    }
    .controls {
        display: flex;
        justify-content: center;
        align-items: center;
        gap: 15px;
        margin-bottom: 20px;
        flex-shrink: 0;
    }
    .sort-toggle {
        background: linear-gradient(135deg, #e17055 0%, #d63031 100%);
        color: white;
        border: none;
        padding: 12px 20px;
        border-radius: 8px;
        cursor: pointer;
        font-size: 0.9rem;
        font-weight: 600;
        box-shadow: 0 2px 10px rgba(0,0,0,0.1);
        transition: all 0.3s ease;
        min-width: 180px;
    }
    .sort-toggle:hover {
        transform: translateY(-2px);
        box-shadow: 0 4px 15px rgba(0,0,0,0.15);
    }
    .sort-toggle:active {
        transform: translateY(0);
    }

    /* Improved search input look */
    .filter-input {
        padding: 8px 12px;
        border: 1px solid rgba(0,0,0,0.12);
        border-radius: 10px;
        font-size: 0.95rem;
        min-width: 220px;
        box-shadow: 0 2px 6px rgba(0,0,0,0.06);
        transition: box-shadow 0.15s ease, transform 0.08s ease, border-color 0.15s ease;
        background: white;
        color: #333;
    }
    .filter-input::placeholder {
        color: #9aa4b2;
    }
    .filter-input:focus {
        outline: none;
        box-shadow: 0 6px 18px rgba(102,126,234,0.12);
        transform: translateY(-1px);
        border-color: rgba(102,126,234,0.6);
    }

    .container {
        flex: 1 1 auto;
        display: flex;
        flex-direction: column;
        background: white;
        border-radius: 12px;
        box-shadow: 0 4px 20px rgba(0,0,0,0.08);
        overflow: hidden;
    }
    table {
        width: 100%;
        border-collapse: collapse;
        display: flex;
        flex-direction: column;
        height: 100%;
    }
    thead {
        display: table-header-group;
        background: linear-gradient(135deg, #4CAF50 0%, #45a049 100%);
        color: white;
    }
    tbody {
        display: block;
        overflow-y: auto;
        flex: 1 1 auto;
    }
    tr {
        display: table;
        width: 100%;
        table-layout: fixed;
    }
    th {
        background: linear-gradient(135deg, #4CAF50 0%, #45a049 100%);
        color: white;
        padding: 16px;
        text-align: left;
        font-weight: 600;
        font-size: 0.95rem;
        text-transform: uppercase;
        letter-spacing: 0.5px;
        border-bottom: 1px solid #e8ecf0;
    }
    th:nth-child(1) { width: 25%; }
    th:nth-child(2) { width: 5%; }
    th:nth-child(3) { width: 7%; }
    th:nth-child(4) { width: 18%; }
    "#@
        + (if has_decoder { r#"th:nth-child(5) { width: 45%; }"#@ } else { ""@ })
        + r#"
    td {
        padding: 12px 16px;
        border-bottom: 1px solid #e8ecf0;
        vertical-align: top;
    }
    td:nth-child(1) { width: 25%; }
    td:nth-child(2) { width: 5%; }
    td:nth-child(3) { width: 7%; }
    td:nth-child(4) { width: 18%; }
    "#@
        + (if has_decoder { r#"td:nth-child(5) { width: 45%; }"#@ } else { ""@ })
        + r#"
    tr:hover {
        background-color: #f8f9fb;
        transition: background-color 0.2s ease;
    }
    .topic-cell {
        font-family: 'Fira Code', 'Courier New', monospace;
        font-weight: 600;
        color: #3498db;
        word-break: break-all;
        position: relative;
    }
    .size-cell {
        font-family: 'Fira Code', 'Courier New', monospace;
        word-break: break-word;
        background-color: transparent;
        border-radius: 4px;
        padding: 8px;
    }
    .freq-cell {
        font-family: 'Fira Code', 'Courier New', monospace;
        word-break: break-word;
        background-color: transparent;
        border-radius: 4px;
        padding: 8px;
    }
    .timestamp-cell {
        font-family: 'Fira Code', 'Courier New', monospace;
        white-space: nowrap;
        background-color: transparent;
        border-radius: 4px;
        padding: 8px;
    }
    .decoded-cell {
        font-family: 'Fira Code', 'Courier New', monospace;
        background-color: transparent;
        border-radius: 4px;
        padding: 8px;
        max-height: 100px;
        overflow-y: auto;
        word-break: break-word;
        line-height: 1.3;
    }
    .refresh-info {
        text-align: center;
        margin-top: 25px;
        padding: 15px;
        background: linear-gradient(135deg, #74b9ff 0%, #0984e3 100%);
        color: white;
        border-radius: 8px;
        font-size: 0.9rem;
        flex-shrink: 0;
    }
    .no-data {
        text-align: center;
        padding: 40px;
        color: #6c757d;
        font-style: italic;
        font-size: 1.1rem;
    }
    .updated-row {
        animation: fade-highlight 0.5s ease-out;
    }
    @keyframes fade-highlight {
        from { background-color: #ffffa6; }
        to { background-color: transparent; }
    }
    /* Responsive design */
    @media (max-width: 768px) {
        .stats {
            flex-direction: column;
            gap: 15px;
        }
        .controls {
            flex-direction: column;
            gap: 10px;
        }
        .topic-cell, .size-cell, .decoded-cell {
            max-width: none;
        }
        th, td {
            padding: 10px 8px;
            font-size: 0.9rem;
        }
        .decoded-cell {
            max-height: 80px;
        }
        .filter-input {
            min-width: 140px;
        }
    }
</style>
<script>
document.addEventListener("DOMContentLoaded", function() {
    const tableBody = document.querySelector('tbody');
    const eventSource = new EventSource('/sse');
    const topics = new Map();

    // Explicit IDs for robustness
    const totalTopicsValue = document.getElementById('topic-count');
    const lastUpdatedTime = document.getElementById('last-updated-value');
    const sortButton = document.getElementById('sort-toggle-btn');
    const filterInput = document.getElementById('filter-input');
    const filteredCount = document.getElementById('filtered-count');
    const hasDecoder = "#@
        + (if has_decoder { r#"true"#@ } else { r#"false"#@ })
        + r#";

    let sortMode = 'alphabetical'; // 'alphabetical' or 'timestamp'

    function updateStats() {
        totalTopicsValue.textContent = topics.size;
        lastUpdatedTime.textContent = new Date().toLocaleTimeString();
    }

    function getRowByKey(topicKey) {
        const rows = tableBody.querySelectorAll('tr');
        for (const r of rows) {
            if (r.dataset.key === topicKey) return r;
        }
        return null;
    }

    function sortTopics() {
        const topicArray = Array.from(topics.values());
        if (sortMode === 'alphabetical') {
            topicArray.sort((a, b) => a.key_expr.localeCompare(b.key_expr));
        } else {
            topicArray.sort((a, b) => b.received_timestamp - a.received_timestamp);
        }
        return topicArray;
    }

    function applyFilter() {
        const filter = (filterInput.value || '').toLowerCase();
        let count = 0;
        const rows = tableBody.querySelectorAll('tr');
        rows.forEach(row => {
            const topicCell = row.querySelector('.topic-cell');
            if (topicCell && topicCell.textContent.toLowerCase().indexOf(filter) !== -1) {
                row.style.display = "";
                count++;
            } else {
                row.style.display = "none";
            }
        });
        filteredCount.textContent = `${count} Topics`;
    }

    function rebuildTable() {
        tableBody.innerHTML = '';
        sortTopics().forEach(topicData => createAndInsertRow(topicData));
        applyFilter();
    }

    function createAndInsertRow(topicData) {
        const timestampReadable = new Date(topicData.received_timestamp).toISOString().replace('T', ' ').replace('Z', ' UTC');
        const decodedContent = hasDecoder && topicData.decoded_content
            ? `<td class="decoded-cell">${topicData.decoded_content}</td>`
            : (hasDecoder ? '<td class="decoded-cell">-</td>' : '');

        const row = document.createElement('tr');
        row.dataset.key = topicData.key_expr;
        row.dataset.timestamp = topicData.received_timestamp;
        row.innerHTML = `
            <td class="topic-cell">${topicData.key_expr}</td>
            <td class="size-cell">${topicData.last_data_size_bytes}</td>
            <td class="freq-cell">${topicData.estimated_hz}</td>
            <td class="timestamp-cell">${timestampReadable}</td>
            ${decodedContent}
        `;
        tableBody.appendChild(row);
    }

    function updateRow(topicData) {
        const timestampReadable = new Date(topicData.received_timestamp).toISOString().replace('T', ' ').replace('Z', ' UTC');
        let row = getRowByKey(topicData.key_expr);

        if (row) {
            row.querySelector('.size-cell').textContent = topicData.last_data_size_bytes ? topicData.last_data_size_bytes.toFixed(2) : "-";
            row.querySelector('.freq-cell').textContent = topicData.estimated_hz ? topicData.estimated_hz.toFixed(2) : "-";
            row.querySelector('.timestamp-cell').textContent = timestampReadable;
            row.dataset.timestamp = topicData.received_timestamp;

            if (hasDecoder) {
                const decodedCell = row.querySelector('.decoded-cell');
                if (decodedCell) decodedCell.innerHTML = topicData.decoded_content || '-';
            }

            row.classList.add('updated-row');
            setTimeout(() => row.classList.remove('updated-row'), 500);

            if (sortMode === 'timestamp') {
                row.remove();
                insertRowInOrder(row, topicData);
            }
        } else {
            createAndInsertRow(topicData);

            if (sortMode === 'alphabetical') {
                row = getRowByKey(topicData.key_expr);
                if (row) {
                    row.remove();
                    insertRowInOrder(row, topicData);
                }
            }
        }

        // Reapply filter so new/updated row respects search
        applyFilter();
    }

    function insertRowInOrder(row, topicData) {
        const existingRows = tableBody.querySelectorAll('tr');
        let inserted = false;

        for (const existingRow of existingRows) {
            let shouldInsertBefore = false;

            if (sortMode === 'alphabetical') {
                const existingTopic = existingRow.querySelector('.topic-cell').textContent;
                shouldInsertBefore = topicData.key_expr.localeCompare(existingTopic) < 0;
            } else {
                const existingTimestamp = parseInt(existingRow.dataset.timestamp || '0', 10);
                shouldInsertBefore = topicData.received_timestamp > existingTimestamp;
            }

            if (shouldInsertBefore) {
                tableBody.insertBefore(row, existingRow);
                inserted = true;
                break;
            }
        }

        if (!inserted) {
            tableBody.appendChild(row);
        }
    }

    function removeRow(topicKey) {
        const row = getRowByKey(topicKey);
        if (row) row.remove();
        applyFilter();
    }

    function toggleSort() {
        if (sortMode === 'alphabetical') {
            sortMode = 'timestamp';
            sortButton.textContent = 'Sort: Most Recent First';
        } else {
            sortMode = 'alphabetical';
            sortButton.textContent = 'Sort: Alphabetical';
        }

        rebuildTable();
    }

    function decayFrequencies() {
        const now = Date.now();
        const rows = tableBody.querySelectorAll('tr');
        rows.forEach(row => {
            const freqCell = row.querySelector('.freq-cell');
            const lastTs = parseInt(row.dataset.timestamp || '0', 10);
            if (freqCell && lastTs > 0) {
                const elapsed = now - lastTs;
                if (elapsed > 5000) {
                    let currentHz = parseFloat(freqCell.textContent) || 0;
                    // apply exponential decay factor for faster drop
                    currentHz *= 0.5; // halve every tick (1s)
                    freqCell.textContent = currentHz > 0.01 ? currentHz.toFixed(2) : "0.00";
                }
            }
        });
    }
    setInterval(decayFrequencies, 1000);

    // Event handlers
    sortButton.addEventListener('click', toggleSort);
    filterInput.addEventListener('input', applyFilter);

    eventSource.addEventListener("message", function(event) {
        try {
            const delta = JSON.parse(event.data);
            const updated = delta.updated || [];
            const removed = delta.removed || [];

            updated.forEach(topicData => {
                topics.set(topicData.key_expr, topicData);
                updateRow(topicData);
            });

            removed.forEach(topicKey => {
                topics.delete(topicKey);
                removeRow(topicKey);
            });

            updateStats();
        } catch (error) {
            console.error("Error processing SSE message:", error);
        }
    });

    // initial render state
    updateStats();
    applyFilter();
});
</script>
</head>
<body>
<div class="header">
    <h1>Zenoh DDS Monitor</h1>
    <p>Real-time topic monitoring"#@
        + (if has_decoder { r#" with custom decoder"#@ } else { ""@ })
        + r#"</p>
</div>
<div class="stats">
    <div class="stat-item">
        <span class="stat-value" id="topic-count">0</span>
        <span class="stat-label">Topics</span>
    </div>

    <div class="stat-item">
        <button id="sort-toggle-btn" class="sort-toggle">Alphabetical</button>
        <span class="stat-label">Sort Order</span>
    </div>

    <div class="stat-item">
        <!-- Search box above the filtered count (no extra label) -->
        <input
            type="text"
            id="filter-input"
            class="filter-input"
            placeholder="Filter topics..."
        />
        <span class="stat-label" id="filtered-count">0 Topics</span>
    </div>

    <div class="stat-item">
        <span class="stat-value" id="last-updated-value"></span>
        <span class="stat-label">Last Updated</span>
    </div>
</div>
<div class="container">
    <table>
        <thead>
            <tr>
                <th>Topic</th>
                <th>Message Size (B)</th>
                <th>Frequency (Hz)</th>
                <th>Received Timestamp</th>
                "#@
        + (if has_decoder { r#"<th>Decoded Content</th>"#@ } else { ""@ })
        + r#"
            </tr>
        </thead>
        <tbody></tbody>
    </table>
</div>
<div class="refresh-info">Updates every 1000ms | Built with Zenoh + Rust + Warp</div>
</body>
</html>"#@
}

/// Generate HTML for the web UI.
/// `has_decoder`: whether to include the decoded-content column.
/// Returns the full HTML page as a `String`.
pub fn generate_html(has_decoder: bool) -> (page: String)
    ensures
        page@ == page_html(has_decoder),
{

    let mut page = String::from_str(r#"<!DOCTYPE html>
<html lang="en">
<head>
<meta charset="UTF-8">
<meta name="viewport" content="width=device-width, initial-scale=1.0">
<title>Zenoh DDS Topic Monitor</title>
<style>
    body {
        display: flex;
        flex-direction: column;
        height: 100vh;
        margin: 0;
        font-family: 'Segoe UI', Tahoma, Geneva, Verdana, sans-serif;
        background-color: #f5f7fa;
        color: #333;
    }
    .header {
        text-align: center;
        margin-bottom: 30px;
        flex-shrink: 0;
    }
    .header h1 {
        color: #2c3e50;
        margin: 0;
        font-size: 2.5rem;
        font-weight: 300;
    }
    .header p {
        color: #7f8c8d;
        margin: 10px 0 0 0;
        font-size: 1.1rem;
    }
    .stats {
        background: linear-gradient(135deg, #667eea 0%, #764ba2 100%);
        color: white;
        padding: 20px;
        border-radius: 12px;
        margin-bottom: 25px;
        box-shadow: 0 4px 15px rgba(0,0,0,0.1);
        display: flex;
        justify-content: space-between;
        align-items: center;
        flex-shrink: 0;
        gap: 12px;
    }
    .stat-item {
        /* Keep items stacked (control on top, label/value under) and centred */
        text-align: center;
        display: flex;
        flex-direction: column;
        align-items: center;
        gap: 8px;
    }
    .stat-value {
        font-size: 2rem;
        font-weight: bold;
        display: block;
    }
    .stat-label {
        font-size: 0.9rem;
        opacity: 0.9;
    }
    .controls {
        display: flex;
        justify-content: center;
        align-items: center;
        gap: 15px;
        margin-bottom: 20px;
        flex-shrink: 0;
    }
    .sort-toggle {
        background: linear-gradient(135deg, #e17055 0%, #d63031 100%);
        color: white;
        border: none;
        padding: 12px 20px;
        border-radius: 8px;
        cursor: pointer;
        font-size: 0.9rem;
        font-weight: 600;
        box-shadow: 0 2px 10px rgba(0,0,0,0.1);
        transition: all 0.3s ease;
        min-width: 180px;
    }
    .sort-toggle:hover {
        transform: translateY(-2px);
        box-shadow: 0 4px 15px rgba(0,0,0,0.15);
    }
    .sort-toggle:active {
        transform: translateY(0);
    }

    /* Improved search input look */
    .filter-input {
        padding: 8px 12px;
        border: 1px solid rgba(0,0,0,0.12);
        border-radius: 10px;
        font-size: 0.95rem;
        min-width: 220px;
        box-shadow: 0 2px 6px rgba(0,0,0,0.06);
        transition: box-shadow 0.15s ease, transform 0.08s ease, border-color 0.15s ease;
        background: white;
        color: #333;
    }
    .filter-input::placeholder {
        color: #9aa4b2;
    }
    .filter-input:focus {
        outline: none;
        box-shadow: 0 6px 18px rgba(102,126,234,0.12);
        transform: translateY(-1px);
        border-color: rgba(102,126,234,0.6);
    }

    .container {
        flex: 1 1 auto;
        display: flex;
        flex-direction: column;
        background: white;
        border-radius: 12px;
        box-shadow: 0 4px 20px rgba(0,0,0,0.08);
        overflow: hidden;
    }
    table {
        width: 100%;
        border-collapse: collapse;
        display: flex;
        flex-direction: column;
        height: 100%;
    }
    thead {
        display: table-header-group;
        background: linear-gradient(135deg, #4CAF50 0%, #45a049 100%);
        color: white;
    }
    tbody {
        display: block;
        overflow-y: auto;
        flex: 1 1 auto;
    }
    tr {
        display: table;
        width: 100%;
        table-layout: fixed;
    }
    th {
        background: linear-gradient(135deg, #4CAF50 0%, #45a049 100%);
        color: white;
        padding: 16px;
        text-align: left;
        font-weight: 600;
        font-size: 0.95rem;
        text-transform: uppercase;
        letter-spacing: 0.5px;
        border-bottom: 1px solid #e8ecf0;
    }
    th:nth-child(1) { width: 25%; }
    th:nth-child(2) { width: 5%; }
    th:nth-child(3) { width: 7%; }
    th:nth-child(4) { width: 18%; }
    "#);
    page.append(if has_decoder { r#"th:nth-child(5) { width: 45%; }"# } else { "" });
    page.append(r#"
    td {
        padding: 12px 16px;
        border-bottom: 1px solid #e8ecf0;
        vertical-align: top;
    }
    td:nth-child(1) { width: 25%; }
    td:nth-child(2) { width: 5%; }
    td:nth-child(3) { width: 7%; }
    td:nth-child(4) { width: 18%; }
    "#);
    page.append(if has_decoder { r#"td:nth-child(5) { width: 45%; }"# } else { "" });
    page.append(r#"
    tr:hover {
        background-color: #f8f9fb;
        transition: background-color 0.2s ease;
    }
    .topic-cell {
        font-family: 'Fira Code', 'Courier New', monospace;
        font-weight: 600;
        color: #3498db;
        word-break: break-all;
        position: relative;
    }
    .size-cell {
        font-family: 'Fira Code', 'Courier New', monospace;
        word-break: break-word;
        background-color: transparent;
        border-radius: 4px;
        padding: 8px;
    }
    .freq-cell {
        font-family: 'Fira Code', 'Courier New', monospace;
        word-break: break-word;
        background-color: transparent;
        border-radius: 4px;
        padding: 8px;
    }
    .timestamp-cell {
        font-family: 'Fira Code', 'Courier New', monospace;
        white-space: nowrap;
        background-color: transparent;
        border-radius: 4px;
        padding: 8px;
    }
    .decoded-cell {
        font-family: 'Fira Code', 'Courier New', monospace;
        background-color: transparent;
        border-radius: 4px;
        padding: 8px;
        max-height: 100px;
        overflow-y: auto;
        word-break: break-word;
        line-height: 1.3;
    }
    .refresh-info {
        text-align: center;
        margin-top: 25px;
        padding: 15px;
        background: linear-gradient(135deg, #74b9ff 0%, #0984e3 100%);
        color: white;
        border-radius: 8px;
        font-size: 0.9rem;
        flex-shrink: 0;
    }
    .no-data {
        text-align: center;
        padding: 40px;
        color: #6c757d;
        font-style: italic;
        font-size: 1.1rem;
    }
    .updated-row {
        animation: fade-highlight 0.5s ease-out;
    }
    @keyframes fade-highlight {
        from { background-color: #ffffa6; }
        to { background-color: transparent; }
    }
    /* Responsive design */
    @media (max-width: 768px) {
        .stats {
            flex-direction: column;
            gap: 15px;
        }
        .controls {
            flex-direction: column;
            gap: 10px;
        }
        .topic-cell, .size-cell, .decoded-cell {
            max-width: none;
        }
        th, td {
            padding: 10px 8px;
            font-size: 0.9rem;
        }
        .decoded-cell {
            max-height: 80px;
        }
        .filter-input {
            min-width: 140px;
        }
    }
</style>
<script>
document.addEventListener("DOMContentLoaded", function() {
    const tableBody = document.querySelector('tbody');
    const eventSource = new EventSource('/sse');
    const topics = new Map();

    // Explicit IDs for robustness
    const totalTopicsValue = document.getElementById('topic-count');
    const lastUpdatedTime = document.getElementById('last-updated-value');
    const sortButton = document.getElementById('sort-toggle-btn');
    const filterInput = document.getElementById('filter-input');
    const filteredCount = document.getElementById('filtered-count');
    const hasDecoder = "#);
    page.append(if has_decoder { r#"true"# } else { r#"false"# });
    page.append(r#";

    let sortMode = 'alphabetical'; // 'alphabetical' or 'timestamp'

    function updateStats() {
        totalTopicsValue.textContent = topics.size;
        lastUpdatedTime.textContent = new Date().toLocaleTimeString();
    }

    function getRowByKey(topicKey) {
        const rows = tableBody.querySelectorAll('tr');
        for (const r of rows) {
            if (r.dataset.key === topicKey) return r;
        }
        return null;
    }

    function sortTopics() {
        const topicArray = Array.from(topics.values());
        if (sortMode === 'alphabetical') {
            topicArray.sort((a, b) => a.key_expr.localeCompare(b.key_expr));
        } else {
            topicArray.sort((a, b) => b.received_timestamp - a.received_timestamp);
        }
        return topicArray;
    }

    function applyFilter() {
        const filter = (filterInput.value || '').toLowerCase();
        let count = 0;
        const rows = tableBody.querySelectorAll('tr');
        rows.forEach(row => {
            const topicCell = row.querySelector('.topic-cell');
            if (topicCell && topicCell.textContent.toLowerCase().indexOf(filter) !== -1) {
                row.style.display = "";
                count++;
            } else {
                row.style.display = "none";
            }
        });
        filteredCount.textContent = `${count} Topics`;
    }

    function rebuildTable() {
        tableBody.innerHTML = '';
        sortTopics().forEach(topicData => createAndInsertRow(topicData));
        applyFilter();
    }

    function createAndInsertRow(topicData) {
        const timestampReadable = new Date(topicData.received_timestamp).toISOString().replace('T', ' ').replace('Z', ' UTC');
        const decodedContent = hasDecoder && topicData.decoded_content
            ? `<td class="decoded-cell">${topicData.decoded_content}</td>`
            : (hasDecoder ? '<td class="decoded-cell">-</td>' : '');

        const row = document.createElement('tr');
        row.dataset.key = topicData.key_expr;
        row.dataset.timestamp = topicData.received_timestamp;
        row.innerHTML = `
            <td class="topic-cell">${topicData.key_expr}</td>
            <td class="size-cell">${topicData.last_data_size_bytes}</td>
            <td class="freq-cell">${topicData.estimated_hz}</td>
            <td class="timestamp-cell">${timestampReadable}</td>
            ${decodedContent}
        `;
        tableBody.appendChild(row);
    }

    function updateRow(topicData) {
        const timestampReadable = new Date(topicData.received_timestamp).toISOString().replace('T', ' ').replace('Z', ' UTC');
        let row = getRowByKey(topicData.key_expr);

        if (row) {
            row.querySelector('.size-cell').textContent = topicData.last_data_size_bytes ? topicData.last_data_size_bytes.toFixed(2) : "-";
            row.querySelector('.freq-cell').textContent = topicData.estimated_hz ? topicData.estimated_hz.toFixed(2) : "-";
            row.querySelector('.timestamp-cell').textContent = timestampReadable;
            row.dataset.timestamp = topicData.received_timestamp;

            if (hasDecoder) {
                const decodedCell = row.querySelector('.decoded-cell');
                if (decodedCell) decodedCell.innerHTML = topicData.decoded_content || '-';
            }

            row.classList.add('updated-row');
            setTimeout(() => row.classList.remove('updated-row'), 500);

            if (sortMode === 'timestamp') {
                row.remove();
                insertRowInOrder(row, topicData);
            }
        } else {
            createAndInsertRow(topicData);

            if (sortMode === 'alphabetical') {
                row = getRowByKey(topicData.key_expr);
                if (row) {
                    row.remove();
                    insertRowInOrder(row, topicData);
                }
            }
        }

        // Reapply filter so new/updated row respects search
        applyFilter();
    }

    function insertRowInOrder(row, topicData) {
        const existingRows = tableBody.querySelectorAll('tr');
        let inserted = false;

        for (const existingRow of existingRows) {
            let shouldInsertBefore = false;

            if (sortMode === 'alphabetical') {
                const existingTopic = existingRow.querySelector('.topic-cell').textContent;
                shouldInsertBefore = topicData.key_expr.localeCompare(existingTopic) < 0;
            } else {
                const existingTimestamp = parseInt(existingRow.dataset.timestamp || '0', 10);
                shouldInsertBefore = topicData.received_timestamp > existingTimestamp;
            }

            if (shouldInsertBefore) {
                tableBody.insertBefore(row, existingRow);
                inserted = true;
                break;
            }
        }

        if (!inserted) {
            tableBody.appendChild(row);
        }
    }

    function removeRow(topicKey) {
        const row = getRowByKey(topicKey);
        if (row) row.remove();
        applyFilter();
    }

    function toggleSort() {
        if (sortMode === 'alphabetical') {
            sortMode = 'timestamp';
            sortButton.textContent = 'Sort: Most Recent First';
        } else {
            sortMode = 'alphabetical';
            sortButton.textContent = 'Sort: Alphabetical';
        }

        rebuildTable();
    }

    function decayFrequencies() {
        const now = Date.now();
        const rows = tableBody.querySelectorAll('tr');
        rows.forEach(row => {
            const freqCell = row.querySelector('.freq-cell');
            const lastTs = parseInt(row.dataset.timestamp || '0', 10);
            if (freqCell && lastTs > 0) {
                const elapsed = now - lastTs;
                if (elapsed > 5000) {
                    let currentHz = parseFloat(freqCell.textContent) || 0;
                    // apply exponential decay factor for faster drop
                    currentHz *= 0.5; // halve every tick (1s)
                    freqCell.textContent = currentHz > 0.01 ? currentHz.toFixed(2) : "0.00";
                }
            }
        });
    }
    setInterval(decayFrequencies, 1000);

    // Event handlers
    sortButton.addEventListener('click', toggleSort);
    filterInput.addEventListener('input', applyFilter);

    eventSource.addEventListener("message", function(event) {
        try {
            const delta = JSON.parse(event.data);
            const updated = delta.updated || [];
            const removed = delta.removed || [];

            updated.forEach(topicData => {
                topics.set(topicData.key_expr, topicData);
                updateRow(topicData);
            });

            removed.forEach(topicKey => {
                topics.delete(topicKey);
                removeRow(topicKey);
            });

            updateStats();
        } catch (error) {
            console.error("Error processing SSE message:", error);
        }
    });

    // initial render state
    updateStats();
    applyFilter();
});
</script>
</head>
<body>
<div class="header">
    <h1>Zenoh DDS Monitor</h1>
    <p>Real-time topic monitoring"#);
    page.append(if has_decoder { r#" with custom decoder"# } else { "" });
    page.append(r#"</p>
</div>
<div class="stats">
    <div class="stat-item">
        <span class="stat-value" id="topic-count">0</span>
        <span class="stat-label">Topics</span>
    </div>

    <div class="stat-item">
        <button id="sort-toggle-btn" class="sort-toggle">Alphabetical</button>
        <span class="stat-label">Sort Order</span>
    </div>

    <div class="stat-item">
        <!-- Search box above the filtered count (no extra label) -->
        <input
            type="text"
            id="filter-input"
            class="filter-input"
            placeholder="Filter topics..."
        />
        <span class="stat-label" id="filtered-count">0 Topics</span>
    </div>

    <div class="stat-item">
        <span class="stat-value" id="last-updated-value"></span>
        <span class="stat-label">Last Updated</span>
    </div>
</div>
<div class="container">
    <table>
        <thead>
            <tr>
                <th>Topic</th>
                <th>Message Size (B)</th>
                <th>Frequency (Hz)</th>
                <th>Received Timestamp</th>
                "#);
    page.append(if has_decoder { r#"<th>Decoded Content</th>"# } else { "" });
    page.append(r#"
            </tr>
        </thead>
        <tbody></tbody>
    </table>
</div>
<div class="refresh-info">Updates every 1000ms | Built with Zenoh + Rust + Warp</div>
</body>
</html>"#);
    page
}

} // verus!
